use vstd::prelude::*;

verus! {

/// One value of an HTTP `Link` header: its target, and for each of its
/// relation types whether that type is `next`.
pub struct LinkTarget {
    pub target: String,
    pub rel_is_next: Vec<bool>,
}

impl View for LinkTarget {
    type V = (Seq<char>, Seq<bool>);

    open spec fn view(&self) -> (Seq<char>, Seq<bool>) {
        (self.target@, self.rel_is_next@)
    }
}

/// The values that the `Link` parser of hyper-old-types reads from a header,
/// or `None` where it rejects the header.
pub uninterp spec fn parsed_link_header(header: Seq<char>) -> Option<Seq<(Seq<char>, Seq<bool>)>>;

pub open spec fn targets_view(v: Seq<LinkTarget>) -> Seq<(Seq<char>, Seq<bool>)> {
    v.map_values(|t: LinkTarget| t@)
}

/// Relies on `<hyper_old_types::header::Link as FromStr>::from_str` to parse a
/// `Link` header, and on `Link::values`, `LinkValue::link` and
/// `LinkValue::rel` to read each of its values.
#[verifier::external_body]
fn parse_link_header(header: &str) -> (r: Option<Vec<LinkTarget>>)
    ensures
        match r {
            None => parsed_link_header(header@) is None,
            Some(v) => parsed_link_header(header@) == Some(targets_view(v@)),
        },
{
    let link: hyper_old_types::header::Link = header.parse().ok()?;
    Some(link.values().iter().map(|v| LinkTarget {
        target: v.link().to_string(),
        rel_is_next: v.rel().unwrap_or(&[]).iter().map(|r| match r {
            hyper_old_types::header::RelationType::Next => true,
            _ => false,
        }).collect(),
    }).collect())
}

/// The target of the first value whose relation types include `next`.
pub open spec fn first_next(links: Seq<(Seq<char>, Seq<bool>)>) -> Option<Seq<char>>
    decreases links.len(),
{
    if links.len() == 0 {
        None
    } else if links[0].1.contains(true) {
        Some(links[0].0)
    } else {
        first_next(links.drop_first())
    }
}

/// The `Link` header could not be parsed.
#[derive(Clone, Copy, Debug, PartialEq, Eq, Structural)]
pub struct MalformedLinkHeader;

fn has_next(rels: &Vec<bool>) -> (r: bool)
    ensures
        r == rels@.contains(true),
{
    let mut i: usize = 0;
    while i < rels.len()
        invariant
            i <= rels@.len(),
            forall|j: int| 0 <= j < i ==> !rels@[j],
        decreases rels@.len() - i,
    {
        if rels[i] {
            return true;
        }
        i = i + 1;
    }
    false
}

/// The target of the first link whose relation types include `next`.
pub fn next_of_links(links: &Vec<LinkTarget>) -> (r: Option<String>)
    ensures
        match r {
            None => first_next(targets_view(links@)) is None,
            Some(u) => first_next(targets_view(links@)) == Some(u@),
        },
{
    let ghost all = targets_view(links@);
    let mut i: usize = 0;
    assert(all.subrange(0, all.len() as int) =~= all);
    while i < links.len()
        invariant
            i <= links@.len(),
            all == targets_view(links@),
            first_next(all) == first_next(all.subrange(i as int, all.len() as int)),
        decreases links@.len() - i,
    {
        let ghost rest = all.subrange(i as int, all.len() as int);
        if has_next(&links[i].rel_is_next) {
            assert(rest[0] == links@[i as int]@);
            return Some(links[i].target.clone());
        }
        assert(rest.drop_first() =~= all.subrange(i + 1, all.len() as int));
        i = i + 1;
    }
    assert(all.subrange(i as int, all.len() as int).len() == 0);
    None
}

/// The next-page target that a `Link` response header names, if any.
pub fn next_link(header: &str) -> (r: Result<Option<String>, MalformedLinkHeader>)
    ensures
        match r {
            Err(_) => parsed_link_header(header@) is None,
            Ok(None) => parsed_link_header(header@) matches Some(ls) && first_next(ls) is None,
            Ok(Some(u)) => parsed_link_header(header@) matches Some(ls) && first_next(ls) == Some(u@),
        },
{
    match parse_link_header(header) {
        None => Err(MalformedLinkHeader),
        Some(links) => Ok(next_of_links(&links)),
    }
}

} // verus!
