//! Game server images: the progress records of a pull, when a pull may start, and the
//! version label of an image.
use vstd::prelude::*;

use crate::bindings::uuid_new_v4;
use crate::branch::VERSION_LABEL;
use crate::error::ArsaError;
use crate::ids::{is_v4_uuid, spec_uuid_text, uuid_text};
use crate::responses::{ArsStatus, PullLog};
use crate::text::{spec_trim, str_eq, trim_char};

verus! {

/// One progress report of the engine while it pulls an image.
#[derive(Debug)]
pub struct ImageProgress {
    pub id: Option<String>,
    pub error_code: Option<i64>,
    pub error_message: Option<String>,
    pub status: Option<String>,
    pub progress_current: Option<i64>,
    pub progress_total: Option<i64>,
}

/// A missing text reads as empty.
pub open spec fn text_or_empty(o: Option<String>) -> Seq<char> {
    match o {
        Some(s) => s@,
        None => Seq::<char>::empty(),
    }
}

/// A missing number reads as zero.
pub open spec fn int_or_zero(o: Option<i64>) -> i64 {
    match o {
        Some(x) => x,
        None => 0,
    }
}

fn take_text(o: Option<String>) -> (r: String)
    ensures
        r@ == text_or_empty(o),
{
    match o {
        Some(s) => s,
        None => String::new(),
    }
}

fn take_int(o: Option<i64>) -> (r: i64)
    ensures
        r == int_or_zero(o),
{
    match o {
        Some(x) => x,
        None => 0,
    }
}

/// Whether `r` records the report `msg` of pull `pull_id`, apart from its identifier.
pub open spec fn records_progress(r: PullLog, pull_id: u128, msg: Result<ImageProgress, String>) -> bool {
    &&& r.pull_id == pull_id
    &&& match msg {
        Ok(info) => {
            &&& r.error_detail_code == int_or_zero(info.error_code)
            &&& r.error_detail_message@ == text_or_empty(info.error_message)
            &&& r.status@ == text_or_empty(info.status)
            &&& r.progress_detail_current == int_or_zero(info.progress_current)
            &&& r.progress_detail_total == int_or_zero(info.progress_total)
        },
        Err(e) => {
            &&& r.error_detail_code == 0
            &&& r.error_detail_message@ == e@
            &&& r.status@.len() == 0
            &&& r.progress_detail_current == 0
            &&& r.progress_detail_total == 0
        },
    }
}

/// Whether a report carries an identifier of its own.
pub open spec fn has_own_id(msg: Result<ImageProgress, String>) -> bool {
    msg matches Ok(info) && text_or_empty(info.id).len() > 0
}

/// The record of report `msg` of pull `pull_id`; a report without an identifier of its
/// own, and a failure, are filed under `fresh_id`.
pub fn pull_log_entry_with_id(pull_id: u128, msg: Result<ImageProgress, String>, fresh_id: u128) -> (r:
    PullLog)
    ensures
        records_progress(r, pull_id, msg),
        has_own_id(msg) ==> r.id@ == text_or_empty(msg->Ok_0.id),
        !has_own_id(msg) ==> r.id@ == spec_uuid_text(fresh_id),
{
    match msg {
        Ok(info) => {
            let own = take_text(info.id);
            let id = if own.as_str().unicode_len() == 0 {
                uuid_text(fresh_id)
            } else {
                own
            };
            PullLog {
                id,
                pull_id,
                error_detail_code: take_int(info.error_code),
                error_detail_message: take_text(info.error_message),
                status: take_text(info.status),
                progress_detail_current: take_int(info.progress_current),
                progress_detail_total: take_int(info.progress_total),
            }
        },
        Err(e) => PullLog {
            id: uuid_text(fresh_id),
            pull_id,
            error_detail_code: 0,
            error_detail_message: e,
            status: String::new(),
            progress_detail_current: 0,
            progress_detail_total: 0,
        },
    }
}

/// The record of report `msg` of pull `pull_id`; where the report has no identifier of its
/// own, a fresh random version 4 one is made.
pub fn pull_log_entry(pull_id: u128, msg: Result<ImageProgress, String>) -> (r: PullLog)
    ensures
        records_progress(r, pull_id, msg),
        has_own_id(msg) ==> r.id@ == text_or_empty(msg->Ok_0.id),
        !has_own_id(msg) ==> exists|u: u128| is_v4_uuid(u) && r.id@ == spec_uuid_text(u),
{
    let fresh = uuid_new_v4();
    pull_log_entry_with_id(pull_id, msg, fresh)
}

/// A pull may start only while no other one recreates the images.
pub fn ensure_pull_allowed(status: ArsStatus) -> (r: Result<(), ArsaError>)
    ensures
        status == ArsStatus::Recreating ==> r matches Err(ArsaError::BadRequest),
        status != ArsStatus::Recreating ==> r is Ok,
{
    if status == ArsStatus::Recreating {
        Err(ArsaError::BadRequest)
    } else {
        Ok(())
    }
}

/// What inspecting an image gave.
#[derive(Debug)]
pub enum ImageInspectOutcome {
    /// The image exists, with these labels (none when it has no configuration).
    Found(Vec<(String, String)>),
    /// The engine answered 404.
    Missing,
    /// Any other failure, with its message.
    Failed(String),
}

/// Whether no two labels share a key, as in the engine's label map.
pub open spec fn labels_distinct(labels: Seq<(String, String)>) -> bool {
    forall|i: int, j: int|
        0 <= i < j < labels.len() ==> (#[trigger] labels[i]).0@ != (#[trigger] labels[j]).0@
}

/// The label named `key`, as plain values (the first one, should keys repeat).
pub open spec fn spec_label(labels: Seq<(String, String)>, key: Seq<char>) -> Option<Seq<char>>
    decreases labels.len(),
{
    if labels.len() == 0 {
        None
    } else if labels[0].0@ == key {
        Some(labels[0].1@)
    } else {
        spec_label(labels.drop_first(), key)
    }
}

fn find_label(labels: &Vec<(String, String)>, key: &str) -> (r: Option<String>)
    ensures
        match r {
            Some(v) => spec_label(labels@, key@) == Some(v@),
            None => spec_label(labels@, key@) is None,
        },
{
    let mut i: usize = 0;
    proof {
        assert(labels@.subrange(0, labels@.len() as int) =~= labels@);
    }
    while i < labels.len()
        invariant
            i <= labels@.len(),
            spec_label(labels@, key@) == spec_label(labels@.subrange(i as int, labels@.len() as int), key@),
        decreases labels@.len() - i,
    {
        proof {
            let t = labels@.subrange(i as int, labels@.len() as int);
            assert(t.drop_first() =~= labels@.subrange(i + 1, labels@.len() as int));
            assert(t[0] == labels@[i as int]);
        }
        if str_eq(labels[i].0.as_str(), key) {
            return Some(labels[i].1.clone());
        }
        i = i + 1;
    }
    None
}

/// The version of an image: its `de.grad.arsa.version` label. A missing image or label is
/// not found; other failures pass on. The labels come from a map, so their keys differ.
pub fn image_version(outcome: ImageInspectOutcome) -> (r: Result<String, ArsaError>)
    requires
        outcome matches ImageInspectOutcome::Found(labels) ==> labels_distinct(labels@),
    ensures
        match outcome {
            ImageInspectOutcome::Found(labels) => match spec_label(labels@, VERSION_LABEL@) {
                Some(v) => r matches Ok(s) && s@ == v,
                None => r matches Err(ArsaError::NotFound),
            },
            ImageInspectOutcome::Missing => r matches Err(ArsaError::NotFound),
            ImageInspectOutcome::Failed(m) => r matches Err(ArsaError::BollardError(e)) && e == m,
        },
{
    match outcome {
        ImageInspectOutcome::Found(labels) => match find_label(&labels, VERSION_LABEL) {
            Some(v) => Ok(v),
            None => Err(ArsaError::NotFound),
        },
        ImageInspectOutcome::Missing => Err(ArsaError::NotFound),
        ImageInspectOutcome::Failed(m) => Err(ArsaError::BollardError(m)),
    }
}

/// Whether an image can be used: it must exist; a missing image is not found and other
/// failures pass on.
pub fn ensure_image_present(outcome: ImageInspectOutcome) -> (r: Result<(), ArsaError>)
    ensures
        match outcome {
            ImageInspectOutcome::Found(_) => r is Ok,
            ImageInspectOutcome::Missing => r matches Err(ArsaError::NotFound),
            ImageInspectOutcome::Failed(m) => r matches Err(ArsaError::BollardError(e)) && e == m,
        },
{
    match outcome {
        ImageInspectOutcome::Found(_) => Ok(()),
        ImageInspectOutcome::Missing => Err(ArsaError::NotFound),
        ImageInspectOutcome::Failed(m) => Err(ArsaError::BollardError(m)),
    }
}

/// The name of a listed container: its first name without surrounding `/`, or empty.
pub fn listed_container_name(names: &Option<Vec<String>>) -> (r: String)
    ensures
        r@ == match names {
            Some(ns) => if ns@.len() > 0 {
                spec_trim(ns@[0]@, '/')
            } else {
                Seq::<char>::empty()
            },
            None => Seq::<char>::empty(),
        },
{
    let first = match names {
        Some(ns) => if ns.len() > 0 {
            ns[0].clone()
        } else {
            String::new()
        },
        None => String::new(),
    };
    let r = trim_char(first.as_str(), '/');
    proof {
        assert(spec_trim(Seq::<char>::empty(), '/') =~= Seq::<char>::empty());
    }
    r
}

} // verus!
