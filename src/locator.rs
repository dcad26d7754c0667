//! Locators: the strings that name a reclaimable unit. A locator is either a
//! filesystem path or a container-runtime reference `docker://<kind>/<id>`.
use vstd::prelude::*;
use crate::text::{
    chars_of, has_prefix, same_chars, slice_chars, split, split_chars, starts_with, string_from, string_views,
    views,
};

verus! {

/// The kinds of container-runtime resource that can be reclaimed.
#[derive(Debug, Clone, Copy, PartialEq, Eq, Structural)]
pub enum ResourceKind {
    Container,
    Image,
    Volume,
    Cache,
}

/// A decoded locator.
#[derive(Debug, PartialEq, Eq)]
pub enum Locator {
    /// A filesystem path.
    Path(String),
    /// A container-runtime resource of a known kind.
    Resource { kind: ResourceKind, id: String },
    /// A container-runtime reference whose kind is not one of the known four.
    UnknownResource { name: String },
    /// A container-runtime reference without an id segment.
    Incomplete,
}

/// The value of a decoded locator.
pub enum LocatorView {
    Path(Seq<char>),
    Resource { kind: ResourceKind, id: Seq<char> },
    UnknownResource { name: Seq<char> },
    Incomplete,
}

impl View for Locator {
    type V = LocatorView;

    open spec fn view(&self) -> LocatorView {
        match self {
            Locator::Path(p) => LocatorView::Path(p@),
            Locator::Resource { kind, id } => LocatorView::Resource { kind: *kind, id: id@ },
            Locator::UnknownResource { name } => LocatorView::UnknownResource { name: name@ },
            Locator::Incomplete => LocatorView::Incomplete,
        }
    }
}

/// The kind that a kind segment names.
pub open spec fn kind_named(k: Seq<char>) -> Option<ResourceKind> {
    if k == "container"@ {
        Some(ResourceKind::Container)
    } else if k == "image"@ {
        Some(ResourceKind::Image)
    } else if k == "volume"@ {
        Some(ResourceKind::Volume)
    } else if k == "cache"@ {
        Some(ResourceKind::Cache)
    } else {
        None
    }
}

/// What a locator denotes: after the `docker://` scheme, the segments up to the
/// first and the second `/` are the kind and the id (anything after the id is
/// not read); a string without the scheme is a path.
pub open spec fn decode(s: Seq<char>) -> LocatorView {
    if has_prefix(s, "docker://"@) {
        let parts = split(s.skip("docker://"@.len() as int), '/');
        if parts.len() >= 2 {
            match kind_named(parts[0]) {
                Some(kind) => LocatorView::Resource { kind, id: parts[1] },
                None => LocatorView::UnknownResource { name: parts[0] },
            }
        } else {
            LocatorView::Incomplete
        }
    } else {
        LocatorView::Path(s)
    }
}

/// The kind that `k` names, if any.
fn kind_of(k: &Vec<char>) -> (r: Option<ResourceKind>)
    ensures
        r == kind_named(k@),
{
    if same_chars(k, "container") {
        Some(ResourceKind::Container)
    } else if same_chars(k, "image") {
        Some(ResourceKind::Image)
    } else if same_chars(k, "volume") {
        Some(ResourceKind::Volume)
    } else if same_chars(k, "cache") {
        Some(ResourceKind::Cache)
    } else {
        None
    }
}

/// Decodes a locator into a path or a container-runtime reference.
pub fn decode_locator(locator: &str) -> (r: Locator)
    ensures
        r@ == decode(locator@),
{
    let v = chars_of(locator);
    if !starts_with(&v, "docker://") {
        return Locator::Path(locator.to_owned());
    }
    let scheme_len = chars_of("docker://").len();
    let rest = slice_chars(&v, scheme_len, v.len());
    assert(rest@ =~= locator@.skip("docker://"@.len() as int));
    let parts = split_chars(&rest, '/');
    assert(views(parts@) == split(rest@, '/'));
    if parts.len() >= 2 {
        assert(parts@[0]@ == split(rest@, '/')[0]);
        assert(parts@[1]@ == split(rest@, '/')[1]);
        match kind_of(&parts[0]) {
            Some(kind) => Locator::Resource { kind, id: string_from(&parts[1]) },
            None => Locator::UnknownResource { name: string_from(&parts[0]) },
        }
    } else {
        Locator::Incomplete
    }
}

/// The runtime command line (after the program name) that removes a resource.
/// Pruning the build cache removes all of it, whatever the id.
pub open spec fn removal_command(kind: ResourceKind, id: Seq<char>) -> Seq<Seq<char>> {
    match kind {
        ResourceKind::Container => seq!["container"@, "rm"@, id],
        ResourceKind::Image => seq!["image"@, "rm"@, id],
        ResourceKind::Volume => seq!["volume"@, "rm"@, id],
        ResourceKind::Cache => seq!["builder"@, "prune"@, "-f"@],
    }
}

/// The arguments of the runtime command that removes the resource `id` of `kind`.
pub fn removal_args(kind: ResourceKind, id: &str) -> (r: Vec<String>)
    ensures
        string_views(r@) == removal_command(kind, id@),
{
    let mut r: Vec<String> = Vec::new();
    match kind {
        ResourceKind::Container => {
            r.push("container".to_owned());
            r.push("rm".to_owned());
            r.push(id.to_owned());
        },
        ResourceKind::Image => {
            r.push("image".to_owned());
            r.push("rm".to_owned());
            r.push(id.to_owned());
        },
        ResourceKind::Volume => {
            r.push("volume".to_owned());
            r.push("rm".to_owned());
            r.push(id.to_owned());
        },
        ResourceKind::Cache => {
            r.push("builder".to_owned());
            r.push("prune".to_owned());
            r.push("-f".to_owned());
        },
    }
    assert(string_views(r@) =~= removal_command(kind, id@));
    r
}

} // verus!
