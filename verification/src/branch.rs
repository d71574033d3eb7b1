//! Release branches of the game server and the images built from them.
use vstd::prelude::*;

use crate::ids::{spec_uuid_text, uuid_text};
use crate::text::{concat2, concat3};

verus! {

/// A release branch of the game server.
#[derive(Debug, Clone, Copy, PartialEq, Eq, Structural)]
pub enum Branch {
    Stable,
    Experimental,
}

impl Default for Branch {
    /// The stable branch.
    fn default() -> (r: Branch)
        ensures
            r == Branch::Stable,
    {
        Branch::Stable
    }
}

/// The branch named by a request.
#[derive(Debug, Clone, Copy)]
pub struct BranchParams {
    pub branch: Branch,
}

/// The image repository the game server images come from.
pub const IMAGE_REPOSITORY: &'static str = "thewillard/arsa-test";

/// The image every server container is created from.
pub const SERVER_IMAGE: &'static str = "thewillard/arsa-test:1.6.0.121";

/// The label of an image that holds its version.
pub const VERSION_LABEL: &'static str = "de.grad.arsa.version";

/// The name of a branch, as requests and image tags write it.
pub open spec fn spec_branch_tag(b: Branch) -> Seq<char> {
    match b {
        Branch::Stable => "stable"@,
        Branch::Experimental => "experimental"@,
    }
}

/// The image of the given tag.
pub open spec fn spec_image_name(tag: Seq<char>) -> Seq<char> {
    IMAGE_REPOSITORY@ + ":"@ + tag
}

/// The name of a branch.
pub fn get_image_branch_as_string(branch: &Branch) -> (r: String)
    ensures
        r@ == spec_branch_tag(*branch),
{
    match branch {
        Branch::Stable => "stable".to_owned(),
        Branch::Experimental => "experimental".to_owned(),
    }
}

/// The image of a branch, `thewillard/arsa-test:<branch>`.
pub fn get_image_name(branch: &Branch) -> (r: String)
    ensures
        r@ == spec_image_name(spec_branch_tag(*branch)),
{
    let tag = get_image_branch_as_string(branch);
    concat3(IMAGE_REPOSITORY, ":", tag.as_str())
}

/// The image to pull for a branch given by its name; nothing is pulled for an empty name.
pub fn image_name_for_tag(tag: &str) -> (r: Option<String>)
    ensures
        tag@.len() == 0 ==> r is None,
        tag@.len() > 0 ==> (r matches Some(n) && n@ == spec_image_name(tag@)),
{
    if tag.unicode_len() == 0 {
        None
    } else {
        Some(concat3(IMAGE_REPOSITORY, ":", tag))
    }
}

/// The name of the short-lived container that lists the scenarios of a branch.
pub open spec fn spec_scenario_lister_name(b: Branch, id: u128) -> Seq<char> {
    "list-scenarios-"@ + spec_branch_tag(b) + "-"@ + spec_uuid_text(id)
}

/// The name of the container that lists the scenarios of a branch, made unique by `id`.
pub fn scenario_lister_name(branch: &Branch, id: u128) -> (r: String)
    ensures
        r@ == spec_scenario_lister_name(*branch, id),
{
    let tag = get_image_branch_as_string(branch);
    let head = concat3("list-scenarios-", tag.as_str(), "-");
    let idt = uuid_text(id);
    concat2(head.as_str(), idt.as_str())
}

/// Two different branches never share an image.
pub proof fn lemma_image_names_distinct(a: Branch, b: Branch)
    requires
        a != b,
    ensures
        spec_image_name(spec_branch_tag(a)) != spec_image_name(spec_branch_tag(b)),
{
    reveal_strlit("stable");
    reveal_strlit("experimental");
    let x = spec_image_name(spec_branch_tag(a));
    let y = spec_image_name(spec_branch_tag(b));
    assert(x.len() != y.len());
}

} // verus!
