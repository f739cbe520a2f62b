//! The signal decoder: turns one raw signal — a member name plus an untyped
//! structured payload — into one of a closed set of typed domain events.
//!
//! A `Details` payload degrades gracefully field by field: a missing or
//! mistyped metadata field becomes the empty string, a missing `package-id`
//! drops the whole record, and a missing or mistyped `size` displays as
//! `"0 MB"`. The fixed-shape signals (`Package`, `ItemProgress`,
//! `ErrorCode`) are protocol-guaranteed: a wrong arity or field type there
//! is a hard decode failure.

use vstd::prelude::*;
use crate::error::{ErrorView, TransactionError};
use crate::packagekit::{DetailsView, InfoView, InstalledPackageInfo, ProgressSample, SampleView,
    TransactionDetails};
use crate::payload::{spec_lookup, Atom, AtomView, Payload, PayloadView};
use crate::payload::lookup_field;
use crate::strfmt::{mb_display, size_display_mb, str_eq};

verus! {

/// One decoded signal. `Details` carries its record only when the payload
/// held a decodable `package-id`; `Unknown` carries the member name of a
/// signal the decoder does not know, which the session ignores.
#[derive(Debug)]
pub enum DomainEvent {
    Details(Option<TransactionDetails>),
    Package(InstalledPackageInfo),
    ItemProgress(ProgressSample),
    ErrorCode(u32, String),
    Finished,
    Unknown(String),
}

/// The mathematical value of a [`DomainEvent`].
#[verifier::ext_equal]
pub enum EventView {
    Details(Option<DetailsView>),
    Package(InfoView),
    ItemProgress(SampleView),
    ErrorCode(u32, Seq<char>),
    Finished,
    Unknown(Seq<char>),
}

impl View for DomainEvent {
    type V = EventView;

    open spec fn view(&self) -> EventView {
        match self {
            DomainEvent::Details(d) => EventView::Details(
                match d {
                    Some(d) => Some(d@),
                    None => None,
                },
            ),
            DomainEvent::Package(p) => EventView::Package(p@),
            DomainEvent::ItemProgress(s) => EventView::ItemProgress(s@),
            DomainEvent::ErrorCode(code, message) => EventView::ErrorCode(*code, message@),
            DomainEvent::Finished => EventView::Finished,
            DomainEvent::Unknown(member) => EventView::Unknown(member@),
        }
    }
}

/// Whether `fields` holds a string value under `key`.
pub open spec fn spec_has_str_field(fields: Seq<(Seq<char>, AtomView)>, key: Seq<char>) -> bool {
    spec_lookup(fields, key) matches Some(AtomView::Str(_))
}

/// The string under `key` in `fields`, or empty when absent or not a string.
pub open spec fn spec_str_field(fields: Seq<(Seq<char>, AtomView)>, key: Seq<char>) -> Seq<
    char,
> {
    match spec_lookup(fields, key) {
        Some(AtomView::Str(s)) => s,
        _ => Seq::empty(),
    }
}

/// The size display derived from `fields`: the megabyte rendering of an
/// unsigned `size` entry, or `"0 MB"` when absent or of another type.
pub open spec fn spec_size_field(fields: Seq<(Seq<char>, AtomView)>) -> Seq<char> {
    match spec_lookup(fields, "size"@) {
        Some(AtomView::U64(n)) => mb_display(n),
        _ => "0 MB"@,
    }
}

/// The record a `Details` mapping decodes to: nothing when `package-id` is
/// absent or not a string, else one record whose other fields default
/// per-field.
pub open spec fn spec_details_record(fields: Seq<(Seq<char>, AtomView)>) -> Option<DetailsView> {
    if spec_has_str_field(fields, "package-id"@) {
        Some(
            DetailsView {
                package_id: spec_str_field(fields, "package-id"@),
                summary: spec_str_field(fields, "summary"@),
                description: spec_str_field(fields, "description"@),
                url: spec_str_field(fields, "url"@),
                license: spec_str_field(fields, "license"@),
                size: spec_size_field(fields),
            },
        )
    } else {
        None
    }
}

/// What one raw signal decodes to. `live` is the transaction's live
/// percentage at arrival, if it could be read: an `ItemProgress` event's
/// aggregate percentage is the live value, falling back to the item's own.
pub open spec fn spec_decode(member: Seq<char>, payload: PayloadView, live: Option<u32>) -> Result<
    EventView,
    ErrorView,
> {
    if member == "Details"@ {
        match payload {
            PayloadView::Fields(fields) => Ok(EventView::Details(spec_details_record(fields))),
            _ => Err(ErrorView::MalformedSignal { member }),
        }
    } else if member == "Package"@ {
        match payload {
            PayloadView::Tuple(items) => {
                if items.len() == 3 {
                    match (items[0], items[1], items[2]) {
                        (
                            AtomView::U32(info_code),
                            AtomView::Str(package_id),
                            AtomView::Str(summary),
                        ) => Ok(
                            EventView::Package(InfoView { info_code, package_id, summary }),
                        ),
                        _ => Err(ErrorView::MalformedSignal { member }),
                    }
                } else {
                    Err(ErrorView::MalformedSignal { member })
                }
            },
            _ => Err(ErrorView::MalformedSignal { member }),
        }
    } else if member == "ItemProgress"@ {
        match payload {
            PayloadView::Tuple(items) => {
                if items.len() == 3 {
                    match (items[0], items[1], items[2]) {
                        (
                            AtomView::Str(package_id),
                            AtomView::U32(status_code),
                            AtomView::U32(item_percentage),
                        ) => Ok(
                            EventView::ItemProgress(
                                SampleView {
                                    package_id,
                                    status_code,
                                    item_percentage,
                                    overall_percentage: match live {
                                        Some(v) => v,
                                        None => item_percentage,
                                    },
                                },
                            ),
                        ),
                        _ => Err(ErrorView::MalformedSignal { member }),
                    }
                } else {
                    Err(ErrorView::MalformedSignal { member })
                }
            },
            _ => Err(ErrorView::MalformedSignal { member }),
        }
    } else if member == "ErrorCode"@ {
        match payload {
            PayloadView::Tuple(items) => {
                if items.len() == 2 {
                    match (items[0], items[1]) {
                        (AtomView::U32(code), AtomView::Str(message)) => Ok(
                            EventView::ErrorCode(code, message),
                        ),
                        _ => Err(ErrorView::MalformedSignal { member }),
                    }
                } else {
                    Err(ErrorView::MalformedSignal { member })
                }
            },
            _ => Err(ErrorView::MalformedSignal { member }),
        }
    } else if member == "Finished"@ {
        Ok(EventView::Finished)
    } else {
        Ok(EventView::Unknown(member))
    }
}

/// The string under `key`, or empty when absent or not string-typed.
fn get_str_field(fields: &Vec<(String, Atom)>, key: &str) -> (s: String)
    ensures
        s@ == spec_str_field(fields@.map_values(|f: (String, Atom)| (f.0@, f.1@)), key@),
{
    match lookup_field(fields, key) {
        Some(Atom::Str(v)) => v.clone(),
        _ => String::new(),
    }
}

/// Whether the session should read the transaction's live percentage
/// property before decoding a signal with this member name.
pub fn wants_live_percentage(member: &str) -> (r: bool)
    ensures
        r == (member@ == "ItemProgress"@),
{
    str_eq(member, "ItemProgress")
}

/// Decodes one raw signal into a domain event, or reports the shape
/// violation as a transaction error.
pub fn decode(member: &str, payload: &Payload, live_percentage: Option<u32>) -> (r: Result<
    DomainEvent,
    TransactionError,
>)
    ensures
        match r {
            Ok(ev) => spec_decode(member@, payload@, live_percentage) == Ok::<
                EventView,
                ErrorView,
            >(ev@),
            Err(e) => spec_decode(member@, payload@, live_percentage) == Err::<
                EventView,
                ErrorView,
            >(e@),
        },
{
    if str_eq(member, "Details") {
        match payload {
            Payload::Fields(fields) => {
                let package_id = match lookup_field(fields, "package-id") {
                    Some(Atom::Str(v)) => Some(v.clone()),
                    _ => None,
                };
                match package_id {
                    None => Ok(DomainEvent::Details(None)),
                    Some(package_id) => {
                        let summary = get_str_field(fields, "summary");
                        let description = get_str_field(fields, "description");
                        let url = get_str_field(fields, "url");
                        let license = get_str_field(fields, "license");
                        let size = match lookup_field(fields, "size") {
                            Some(Atom::U64(n)) => size_display_mb(*n),
                            _ => String::from_str("0 MB"),
                        };
                        Ok(
                            DomainEvent::Details(
                                Some(
                                    TransactionDetails {
                                        package_id,
                                        summary,
                                        description,
                                        url,
                                        license,
                                        size,
                                    },
                                ),
                            ),
                        )
                    },
                }
            },
            _ => Err(TransactionError::MalformedSignal { member: member.to_owned() }),
        }
    } else if str_eq(member, "Package") {
        match payload {
            Payload::Tuple(items) => {
                if items.len() == 3 {
                    match (&items[0], &items[1], &items[2]) {
                        (Atom::U32(info_code), Atom::Str(package_id), Atom::Str(summary)) => Ok(
                            DomainEvent::Package(
                                InstalledPackageInfo {
                                    info_code: *info_code,
                                    package_id: package_id.clone(),
                                    summary: summary.clone(),
                                },
                            ),
                        ),
                        _ => Err(TransactionError::MalformedSignal { member: member.to_owned() }),
                    }
                } else {
                    Err(TransactionError::MalformedSignal { member: member.to_owned() })
                }
            },
            _ => Err(TransactionError::MalformedSignal { member: member.to_owned() }),
        }
    } else if str_eq(member, "ItemProgress") {
        match payload {
            Payload::Tuple(items) => {
                if items.len() == 3 {
                    match (&items[0], &items[1], &items[2]) {
                        (
                            Atom::Str(package_id),
                            Atom::U32(status_code),
                            Atom::U32(item_percentage),
                        ) => {
                            let overall_percentage = match live_percentage {
                                Some(v) => v,
                                None => *item_percentage,
                            };
                            Ok(
                                DomainEvent::ItemProgress(
                                    ProgressSample {
                                        package_id: package_id.clone(),
                                        status_code: *status_code,
                                        item_percentage: *item_percentage,
                                        overall_percentage,
                                    },
                                ),
                            )
                        },
                        _ => Err(TransactionError::MalformedSignal { member: member.to_owned() }),
                    }
                } else {
                    Err(TransactionError::MalformedSignal { member: member.to_owned() })
                }
            },
            _ => Err(TransactionError::MalformedSignal { member: member.to_owned() }),
        }
    } else if str_eq(member, "ErrorCode") {
        match payload {
            Payload::Tuple(items) => {
                if items.len() == 2 {
                    match (&items[0], &items[1]) {
                        (Atom::U32(code), Atom::Str(message)) => Ok(
                            DomainEvent::ErrorCode(*code, message.clone()),
                        ),
                        _ => Err(TransactionError::MalformedSignal { member: member.to_owned() }),
                    }
                } else {
                    Err(TransactionError::MalformedSignal { member: member.to_owned() })
                }
            },
            _ => Err(TransactionError::MalformedSignal { member: member.to_owned() }),
        }
    } else if str_eq(member, "Finished") {
        Ok(DomainEvent::Finished)
    } else {
        Ok(DomainEvent::Unknown(member.to_owned()))
    }
}

/// A valid `Details` payload without a `package-id` string entry yields no
/// record: the event is dropped, not erred.
pub proof fn lemma_details_without_package_id(
    fields: Seq<(Seq<char>, AtomView)>,
    live: Option<u32>,
)
    requires
        !spec_has_str_field(fields, "package-id"@),
    ensures
        spec_decode("Details"@, PayloadView::Fields(fields), live) == Ok::<
            EventView,
            ErrorView,
        >(EventView::Details(None)),
{
}

/// A `Details` payload whose size entry is 2_500_000 bytes displays as
/// exactly `"2 MB"`: whole megabytes are truncated, not rounded.
pub proof fn lemma_size_display_truncates(fields: Seq<(Seq<char>, AtomView)>)
    requires
        spec_lookup(fields, "size"@) == Some(AtomView::U64(2_500_000u64)),
    ensures
        spec_size_field(fields) == "2 MB"@,
{
    reveal_strlit(" MB");
    reveal_strlit("2 MB");
    assert(2_500_000u64 / 1_000_000 == 2);
    assert(crate::strfmt::dec_str(2) == seq![crate::strfmt::digit_char(2)]);
    assert(mb_display(2_500_000u64) =~= "2 MB"@);
}

} // verus!
