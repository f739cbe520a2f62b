//! A package file as the caller sees it: the path it was loaded from plus the
//! metadata decoded for it, with the compound package id split into its
//! name, version and architecture fields.

use vstd::prelude::*;
use vstd::string::StrSliceExecFns;
use crate::packagekit::{TransactionDetails, TRANSACTION_FLAG_NONE};

verus! {

/// The index of the first `';'` in `s`, or `s.len()` if there is none.
pub open spec fn sep_index(s: Seq<char>) -> int
    decreases s.len(),
{
    if s.len() == 0 {
        0
    } else if s[0] == ';' {
        0
    } else {
        1 + sep_index(s.skip(1))
    }
}

/// The characters before the first `';'` of `s` (all of `s` if none).
pub open spec fn head_field(s: Seq<char>) -> Seq<char> {
    s.take(sep_index(s))
}

/// The characters after the first `';'` of `s` (empty if there is none).
pub open spec fn tail_fields(s: Seq<char>) -> Seq<char> {
    if sep_index(s) == s.len() {
        Seq::empty()
    } else {
        s.skip(sep_index(s) + 1)
    }
}

/// The name field of a compound package id: its first `';'`-separated field.
pub open spec fn name_of(id: Seq<char>) -> Seq<char> {
    head_field(id)
}

/// The version field of a compound package id: its second `';'`-separated
/// field, empty if the id has fewer fields.
pub open spec fn version_of(id: Seq<char>) -> Seq<char> {
    head_field(tail_fields(id))
}

/// The architecture field of a compound package id: its third
/// `';'`-separated field, empty if the id has fewer fields.
pub open spec fn architecture_of(id: Seq<char>) -> Seq<char> {
    head_field(tail_fields(tail_fields(id)))
}

proof fn lemma_sep_index_at(s: Seq<char>, i: int)
    requires
        0 <= i <= s.len(),
        forall|j: int| 0 <= j < i ==> s[j] != ';',
        i == s.len() || s[i] == ';',
    ensures
        sep_index(s) == i,
    decreases s.len(),
{
    if s.len() == 0 {
    } else if s[0] == ';' {
        assert(i == 0);
    } else {
        assert(i > 0);
        let t = s.skip(1);
        assert(forall|j: int| 0 <= j < i - 1 ==> t[j] == s[j + 1] && s[j + 1] != ';');
        if i < s.len() {
            assert(t[i - 1] == s[i]);
        }
        lemma_sep_index_at(t, i - 1);
    }
}

/// Splits a compound string at its first `';'`: the field before it, and the
/// remainder after it (empty when there is no separator).
fn split_head(s: &str) -> (r: (String, String))
    ensures
        r.0@ == head_field(s@),
        r.1@ == tail_fields(s@),
{
    let len = s.unicode_len();
    let mut i: usize = 0;
    while i < len && s.get_char(i) != ';'
        invariant
            len == s@.len(),
            i <= len,
            forall|j: int| 0 <= j < i ==> s@[j] != ';',
        decreases len - i,
    {
        i += 1;
    }
    proof {
        lemma_sep_index_at(s@, i as int);
    }
    let head = s.substring_char(0, i).to_owned();
    proof {
        assert(head@ =~= head_field(s@));
    }
    let tail = if i == len {
        String::new()
    } else {
        s.substring_char(i + 1, len).to_owned()
    };
    proof {
        assert(tail@ =~= tail_fields(s@));
    }
    (head, tail)
}

/// A package file with its decoded metadata, ready for display: the compound
/// package id is kept whole in `id` and split into `name`, `version` and
/// `architecture`.
#[derive(Debug)]
pub struct Package {
    pub path: String,
    pub id: String,
    pub name: String,
    pub version: String,
    pub architecture: String,
    pub summary: String,
    pub description: String,
    pub url: String,
    pub license: String,
    pub size: String,
}

/// The mathematical value of a [`Package`].
#[verifier::ext_equal]
pub struct PackageView {
    pub path: Seq<char>,
    pub id: Seq<char>,
    pub name: Seq<char>,
    pub version: Seq<char>,
    pub architecture: Seq<char>,
    pub summary: Seq<char>,
    pub description: Seq<char>,
    pub url: Seq<char>,
    pub license: Seq<char>,
    pub size: Seq<char>,
}

impl View for Package {
    type V = PackageView;

    open spec fn view(&self) -> PackageView {
        PackageView {
            path: self.path@,
            id: self.id@,
            name: self.name@,
            version: self.version@,
            architecture: self.architecture@,
            summary: self.summary@,
            description: self.description@,
            url: self.url@,
            license: self.license@,
            size: self.size@,
        }
    }
}

impl Clone for Package {
    fn clone(&self) -> (r: Self)
        ensures
            r@ == self@,
    {
        Package {
            path: self.path.clone(),
            id: self.id.clone(),
            name: self.name.clone(),
            version: self.version.clone(),
            architecture: self.architecture.clone(),
            summary: self.summary.clone(),
            description: self.description.clone(),
            url: self.url.clone(),
            license: self.license.clone(),
            size: self.size.clone(),
        }
    }
}

/// The package record that one queried path and one decoded metadata record
/// determine: the id split into its fields, everything else carried over.
pub open spec fn spec_package_of(path: Seq<char>, d: crate::packagekit::DetailsView) -> PackageView {
    PackageView {
        path,
        id: d.package_id,
        name: name_of(d.package_id),
        version: version_of(d.package_id),
        architecture: architecture_of(d.package_id),
        summary: d.summary,
        description: d.description,
        url: d.url,
        license: d.license,
        size: d.size,
    }
}

impl Package {
    /// Builds the caller-facing record for one package file from the path it
    /// was read from and the metadata decoded for it.
    pub fn new(path: String, tx: TransactionDetails) -> (p: Self)
        ensures
            p@ == spec_package_of(path@, tx@),
    {
        let (name, rest) = split_head(tx.package_id.as_str());
        let (version, rest) = split_head(rest.as_str());
        let (architecture, _rest) = split_head(rest.as_str());

        let p = Self {
            path,
            id: tx.package_id.clone(),
            name,
            version,
            architecture,
            summary: tx.summary,
            description: tx.description,
            url: tx.url,
            license: tx.license,
            size: tx.size,
        };
        proof {
            assert(p@ =~= spec_package_of(p.path@, tx@));
        }
        p
    }
}

/// Builds the caller-facing package list for one queried file: one record
/// per decoded detail, in arrival order, each bound to the queried path.
pub fn packages_from_details(path: &String, details: &Vec<TransactionDetails>) -> (ps: Vec<
    Package,
>)
    ensures
        ps@.map_values(|p: Package| p@) == details@.map_values(
            |d: TransactionDetails| spec_package_of(path@, d@),
        ),
{
    let mut ps: Vec<Package> = Vec::new();
    let mut i: usize = 0;
    while i < details.len()
        invariant
            i <= details@.len(),
            ps@.len() == i,
            forall|j: int| 0 <= j < i ==> (#[trigger] ps@[j])@ == spec_package_of(
                path@,
                details@[j]@,
            ),
        decreases details@.len() - i,
    {
        let p = Package::new(path.clone(), details[i].clone());
        ps.push(p);
        i += 1;
    }
    proof {
        assert(ps@.map_values(|p: Package| p@) =~= details@.map_values(
            |d: TransactionDetails| spec_package_of(path@, d@),
        ));
    }
    ps
}

/// One install request, ready to be issued to the remote service: the
/// transaction flag and the file paths to install.
#[derive(Debug)]
pub struct InstallRequest {
    pub flags: u64,
    pub paths: Vec<String>,
}

/// Builds the install request for a set of local package files: the paths of
/// the given packages, in order, under the plain transaction flag.
pub fn install_packages_local(packages: &Vec<Package>) -> (req: InstallRequest)
    ensures
        req.flags == TRANSACTION_FLAG_NONE,
        req.paths@.len() == packages@.len(),
        forall|i: int| 0 <= i < packages@.len() ==> #[trigger] req.paths@[i]@ == packages@[i].path@,
{
    let mut paths: Vec<String> = Vec::new();
    let mut i: usize = 0;
    while i < packages.len()
        invariant
            i <= packages@.len(),
            paths@.len() == i,
            forall|j: int| 0 <= j < i ==> #[trigger] paths@[j]@ == packages@[j].path@,
        decreases packages@.len() - i,
    {
        paths.push(packages[i].path.clone());
        i += 1;
    }
    InstallRequest { flags: TRANSACTION_FLAG_NONE, paths }
}

} // verus!
