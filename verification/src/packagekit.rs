//! Types and constants of the package-management transaction protocol: the
//! decoded metadata record of one package file, the transaction flag the
//! engine requests, and the session hints set on every new transaction.

use vstd::prelude::*;

verus! {

/// No special transaction behaviour requested; the flag value sent with an
/// install request.
pub const TRANSACTION_FLAG_NONE: u64 = 1;

/// One decoded `Details` signal: the metadata the remote service reports for
/// one package file. Every field defaults to the empty string when absent
/// from the payload; `size` is the human-readable megabyte display.
#[derive(Debug)]
pub struct TransactionDetails {
    pub package_id: String,
    pub summary: String,
    pub description: String,
    pub url: String,
    pub license: String,
    pub size: String,
}

/// The mathematical value of a [`TransactionDetails`].
#[verifier::ext_equal]
pub struct DetailsView {
    pub package_id: Seq<char>,
    pub summary: Seq<char>,
    pub description: Seq<char>,
    pub url: Seq<char>,
    pub license: Seq<char>,
    pub size: Seq<char>,
}

impl View for TransactionDetails {
    type V = DetailsView;

    open spec fn view(&self) -> DetailsView {
        DetailsView {
            package_id: self.package_id@,
            summary: self.summary@,
            description: self.description@,
            url: self.url@,
            license: self.license@,
            size: self.size@,
        }
    }
}

impl Clone for TransactionDetails {
    fn clone(&self) -> (r: Self)
        ensures
            r@ == self@,
    {
        TransactionDetails {
            package_id: self.package_id.clone(),
            summary: self.summary.clone(),
            description: self.description.clone(),
            url: self.url.clone(),
            license: self.license.clone(),
            size: self.size.clone(),
        }
    }
}

/// One decoded `Package` signal: a numeric classification of an install,
/// update or removal, with the package it concerns. Purely informational.
#[derive(Debug, Clone)]
pub struct InstalledPackageInfo {
    pub info_code: u32,
    pub package_id: String,
    pub summary: String,
}

/// The mathematical value of an [`InstalledPackageInfo`].
#[verifier::ext_equal]
pub struct InfoView {
    pub info_code: u32,
    pub package_id: Seq<char>,
    pub summary: Seq<char>,
}

impl View for InstalledPackageInfo {
    type V = InfoView;

    open spec fn view(&self) -> InfoView {
        InfoView {
            info_code: self.info_code,
            package_id: self.package_id@,
            summary: self.summary@,
        }
    }
}

/// One decoded `ItemProgress` signal, together with the aggregate percentage
/// in force when it arrived: the live transaction percentage if it could be
/// read, else the item's own percentage.
#[derive(Debug, Clone)]
pub struct ProgressSample {
    pub package_id: String,
    pub status_code: u32,
    pub item_percentage: u32,
    pub overall_percentage: u32,
}

/// The mathematical value of a [`ProgressSample`].
#[verifier::ext_equal]
pub struct SampleView {
    pub package_id: Seq<char>,
    pub status_code: u32,
    pub item_percentage: u32,
    pub overall_percentage: u32,
}

impl View for ProgressSample {
    type V = SampleView;

    open spec fn view(&self) -> SampleView {
        SampleView {
            package_id: self.package_id@,
            status_code: self.status_code,
            item_percentage: self.item_percentage,
            overall_percentage: self.overall_percentage,
        }
    }
}

/// The session hints set on a fresh transaction before real work is issued:
/// the session is interactive (the package manager may prompt), and batched
/// signal delivery is supported.
pub fn session_hints() -> (hints: Vec<String>)
    ensures
        hints@.len() == 2,
        hints@[0]@ == "interactive=true"@,
        hints@[1]@ == "supports-plural-signals=true"@,
{
    let mut hints: Vec<String> = Vec::new();
    hints.push(String::from_str("interactive=true"));
    hints.push(String::from_str("supports-plural-signals=true"));
    hints
}

} // verus!
