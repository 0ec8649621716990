//! Branch names: `feature/`, the ticket's key, a hyphen, the slug of its
//! title.

use crate::slug::{slug_of, slugify};
use vstd::prelude::*;
use vstd::string::StringExecFns;

verus! {

/// The branch name for a key and a slug.
pub open spec fn branch_name_with_slug(key: Seq<char>, slug: Seq<char>) -> Seq<char> {
    "feature/"@ + key + seq!['-'] + slug
}

/// The branch name for a ticket's key and title.
pub open spec fn branch_name_of(key: Seq<char>, title: Seq<char>) -> Seq<char> {
    branch_name_with_slug(key, slug_of(title))
}

/// What is said to the user once the branch named `branch` is the active one.
pub open spec fn confirmation_of(branch: Seq<char>) -> Seq<char> {
    "Branch '"@ + branch + "' created and checked out successfully."@
}

/// The branch name for a key and a slug that was derived already.
pub fn branch_name_from_slug(key: &str, slug: &str) -> (name: String)
    ensures
        name@ == branch_name_with_slug(key@, slug@),
{
    let mut name = String::from_str("feature/");
    name.append(key);
    name.push('-');
    name.append(slug);
    name
}

/// The branch name for a ticket: `feature/`, its key, a hyphen and the slug
/// of its title.
pub fn branch_name(key: &str, title: &str) -> (name: String)
    ensures
        name@ == branch_name_of(key@, title@),
{
    let slug = slugify(title);
    branch_name_from_slug(key, slug.as_str())
}

/// The line that confirms that the branch named `branch` was created and is
/// the active one.
pub fn confirmation(branch: &str) -> (text: String)
    ensures
        text@ == confirmation_of(branch@),
{
    let mut text = String::from_str("Branch '");
    text.append(branch);
    text.append("' created and checked out successfully.");
    text
}

} // verus!
