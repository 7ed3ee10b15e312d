//! Extraction of the "next page" cursor from a pagination link header.
//!
//! A well-formed header value is a comma-separated list of entries of the
//! shape `<uri>; rel="relation"` (spaces are tolerated around the pieces).
//! Extraction returns the uri of the first entry whose relation is `next`.
//! The policy is fail-open: an absent header, a malformed header and a header
//! without a `next` relation all yield no cursor, never an error, so that
//! pagination stops quietly instead of crashing a long-running consumer.
//!
//! The grammar is stated as a one-character-at-a-time scanner
//! ([`scan_step`]); [`links_of`] accepts exactly the strings the scanner
//! walks to a clean end of an entry list.

use vstd::prelude::*;
use crate::text::{chars_of, string_of_chars};

verus! {

/// Where the scanner stands inside an entry list.
pub enum ScanMode {
    /// Before an entry's `<`; spaces pass.
    BeforeUri,
    /// Inside `<...>`, accumulating the uri.
    InUri,
    /// After `>`, before the `;`; spaces pass.
    AfterUri,
    /// Reading the literal `rel="`; `got` characters of it are read
    /// (spaces pass before its first character).
    RelLit { got: int },
    /// Inside the relation's quotes, accumulating the relation.
    InRel,
    /// After a complete entry; a comma starts the next one.
    AfterEntry,
    /// The input left the grammar; the whole header is malformed.
    Failed,
}

/// The whole scanner state: the mode, the buffers of the entry being read,
/// and the `(uri, relation)` pairs already read.
pub struct LinkScan {
    pub mode: ScanMode,
    pub uri: Seq<char>,
    pub rel: Seq<char>,
    pub links: Seq<(Seq<char>, Seq<char>)>,
}

/// The literal expected between an entry's `;` and its relation value.
pub open spec fn rel_lit() -> Seq<char> {
    seq!['r', 'e', 'l', '=', '"']
}

/// The relation naming the next page's cursor.
pub open spec fn rel_next() -> Seq<char> {
    seq!['n', 'e', 'x', 't']
}

/// The scanner state before any character.
pub open spec fn scan_init() -> LinkScan {
    LinkScan {
        mode: ScanMode::BeforeUri,
        uri: Seq::empty(),
        rel: Seq::empty(),
        links: Seq::empty(),
    }
}

/// One scanner step: the state after reading `c` in state `s`.
pub open spec fn scan_step(s: LinkScan, c: char) -> LinkScan {
    match s.mode {
        ScanMode::BeforeUri => if c == ' ' {
            s
        } else if c == '<' {
            LinkScan { mode: ScanMode::InUri, uri: Seq::empty(), ..s }
        } else {
            LinkScan { mode: ScanMode::Failed, ..s }
        },
        ScanMode::InUri => if c == '>' {
            LinkScan { mode: ScanMode::AfterUri, ..s }
        } else {
            LinkScan { uri: s.uri.push(c), ..s }
        },
        ScanMode::AfterUri => if c == ' ' {
            s
        } else if c == ';' {
            LinkScan { mode: ScanMode::RelLit { got: 0 }, ..s }
        } else {
            LinkScan { mode: ScanMode::Failed, ..s }
        },
        ScanMode::RelLit { got } => if got == 0 && c == ' ' {
            s
        } else if c == rel_lit()[got] {
            if got == rel_lit().len() - 1 {
                LinkScan { mode: ScanMode::InRel, rel: Seq::empty(), ..s }
            } else {
                LinkScan { mode: ScanMode::RelLit { got: got + 1 }, ..s }
            }
        } else {
            LinkScan { mode: ScanMode::Failed, ..s }
        },
        ScanMode::InRel => if c == '"' {
            LinkScan {
                mode: ScanMode::AfterEntry,
                uri: Seq::empty(),
                rel: Seq::empty(),
                links: s.links.push((s.uri, s.rel)),
            }
        } else {
            LinkScan { rel: s.rel.push(c), ..s }
        },
        ScanMode::AfterEntry => if c == ' ' {
            s
        } else if c == ',' {
            LinkScan { mode: ScanMode::BeforeUri, ..s }
        } else {
            LinkScan { mode: ScanMode::Failed, ..s }
        },
        ScanMode::Failed => s,
    }
}

/// The scanner state after reading all of `s`.
pub open spec fn scan(s: Seq<char>) -> LinkScan
    decreases s.len(),
{
    if s.len() == 0 {
        scan_init()
    } else {
        scan_step(scan(s.drop_last()), s.last())
    }
}

/// The `(uri, relation)` pairs of a header value, or nothing when the value
/// is not a well-formed entry list.
pub open spec fn links_of(header: Seq<char>) -> Option<Seq<(Seq<char>, Seq<char>)>> {
    let end = scan(header);
    if end.mode is AfterEntry {
        Some(end.links)
    } else {
        None
    }
}

/// The uri of the first pair whose relation is `next`.
pub open spec fn first_next(links: Seq<(Seq<char>, Seq<char>)>) -> Option<Seq<char>>
    decreases links.len(),
{
    if links.len() == 0 {
        None
    } else if links[0].1 == rel_next() {
        Some(links[0].0)
    } else {
        first_next(links.drop_first())
    }
}

/// An optional header value, as characters.
pub open spec fn header_view(header: Option<&str>) -> Option<Seq<char>> {
    match header {
        Option::None => Option::None,
        Option::Some(h) => Option::Some(h@),
    }
}

/// The cursor extracted from a pagination header: the uri related as `next`,
/// or nothing when the header is absent, malformed, or holds no such entry.
pub open spec fn spec_next_link(header: Option<Seq<char>>) -> Option<Seq<char>> {
    match header {
        Option::None => Option::None,
        Option::Some(h) => match links_of(h) {
            Option::None => Option::None,
            Option::Some(links) => first_next(links),
        },
    }
}

/// Exec mirror of [`ScanMode`].
enum Mode {
    BeforeUri,
    InUri,
    AfterUri,
    RelLit(usize),
    InRel,
    AfterEntry,
    Failed,
}

/// The spec state an exec scanner state stands for.
spec fn mode_view(m: Mode) -> ScanMode {
    match m {
        Mode::BeforeUri => ScanMode::BeforeUri,
        Mode::InUri => ScanMode::InUri,
        Mode::AfterUri => ScanMode::AfterUri,
        Mode::RelLit(got) => ScanMode::RelLit { got: got as int },
        Mode::InRel => ScanMode::InRel,
        Mode::AfterEntry => ScanMode::AfterEntry,
        Mode::Failed => ScanMode::Failed,
    }
}

spec fn links_view(links: Seq<(Vec<char>, Vec<char>)>) -> Seq<(Seq<char>, Seq<char>)> {
    links.map_values(|p: (Vec<char>, Vec<char>)| (p.0@, p.1@))
}

spec fn state_view(m: Mode, uri: Seq<char>, rel: Seq<char>, links: Seq<(Vec<char>, Vec<char>)>)
    -> LinkScan {
    LinkScan { mode: mode_view(m), uri: uri, rel: rel, links: links_view(links) }
}

/// Whether a scanned relation names the next page.
fn rel_is_next(rel: &Vec<char>) -> (r: bool)
    ensures
        r == (rel@ == rel_next()),
{
    if rel.len() != 4 {
        proof {
            assert(rel@ != rel_next());
        }
        return false;
    }
    let r = rel[0] == 'n' && rel[1] == 'e' && rel[2] == 'x' && rel[3] == 't';
    proof {
        if r {
            assert(rel@ =~= rel_next());
        }
    }
    r
}

/// Scans a whole header value.
fn scan_chars(cs: &Vec<char>) -> (r: (Mode, Vec<(Vec<char>, Vec<char>)>))
    ensures
        mode_view(r.0) == scan(cs@).mode,
        links_view(r.1@) == scan(cs@).links,
{
    let mut mode = Mode::BeforeUri;
    let mut uri: Vec<char> = Vec::new();
    let mut rel: Vec<char> = Vec::new();
    let mut links: Vec<(Vec<char>, Vec<char>)> = Vec::new();
    let mut i: usize = 0;
    proof {
        assert(links_view(links@) =~= scan_init().links);
        assert(state_view(mode, uri@, rel@, links@) == scan(cs@.take(0)));
    }
    while i < cs.len()
        invariant
            i <= cs@.len(),
            state_view(mode, uri@, rel@, links@) == scan(cs@.take(i as int)),
            (match mode {
                Mode::RelLit(got) => got <= 4,
                _ => true,
            }),
        decreases cs@.len() - i,
    {
        let c = cs[i];
        let ghost pre = scan(cs@.take(i as int));
        match mode {
            Mode::BeforeUri => {
                if c == ' ' {
                } else if c == '<' {
                    mode = Mode::InUri;
                    uri = Vec::new();
                } else {
                    mode = Mode::Failed;
                }
            },
            Mode::InUri => {
                if c == '>' {
                    mode = Mode::AfterUri;
                } else {
                    uri.push(c);
                }
            },
            Mode::AfterUri => {
                if c == ' ' {
                } else if c == ';' {
                    mode = Mode::RelLit(0);
                } else {
                    mode = Mode::Failed;
                }
            },
            Mode::RelLit(got) => {
                if got == 0 && c == ' ' {
                } else {
                    let expect: char = if got == 0 {
                        'r'
                    } else if got == 1 {
                        'e'
                    } else if got == 2 {
                        'l'
                    } else if got == 3 {
                        '='
                    } else {
                        '"'
                    };
                    proof {
                        assert(got < 5 ==> expect == rel_lit()[got as int]);
                    }
                    if c == expect {
                        if got == 4 {
                            mode = Mode::InRel;
                            rel = Vec::new();
                        } else {
                            mode = Mode::RelLit(got + 1);
                        }
                    } else {
                        mode = Mode::Failed;
                    }
                }
            },
            Mode::InRel => {
                if c == '"' {
                    let u = uri;
                    let rl = rel;
                    uri = Vec::new();
                    rel = Vec::new();
                    let ghost old_links = links@;
                    links.push((u, rl));
                    proof {
                        assert(links_view(links@) =~= links_view(old_links).push((u@, rl@)));
                    }
                    mode = Mode::AfterEntry;
                } else {
                    rel.push(c);
                }
            },
            Mode::AfterEntry => {
                if c == ' ' {
                } else if c == ',' {
                    mode = Mode::BeforeUri;
                } else {
                    mode = Mode::Failed;
                }
            },
            Mode::Failed => {},
        }
        i = i + 1;
        proof {
            assert(cs@.take(i as int).drop_last() =~= cs@.take(i - 1));
            assert(scan(cs@.take(i as int)) == scan_step(pre, c));
            assert(state_view(mode, uri@, rel@, links@) == scan_step(pre, c));
        }
    }
    proof {
        assert(cs@.take(cs@.len() as int) =~= cs@);
    }
    (mode, links)
}

/// Extracts the `next` cursor from an optional pagination header value.
///
/// Returns the uri related as `next`; absent header, malformed header and
/// missing `next` relation all return nothing, and nothing fails.
pub fn next_link(header: Option<&str>) -> (r: Option<String>)
    ensures
        match r {
            Option::Some(u) => spec_next_link(header_view(header)) == Option::Some(u@),
            Option::None => spec_next_link(header_view(header)) is None,
        },
{
    let h = match header {
        Option::Some(h) => h,
        Option::None => {
            return Option::None;
        },
    };
    let cs = chars_of(h);
    let (mode, links) = scan_chars(&cs);
    match mode {
        Mode::AfterEntry => {},
        _ => {
            proof {
                assert(links_of(h@) is None);
            }
            return Option::None;
        },
    }
    let ghost all = links_view(links@);
    proof {
        assert(all.skip(0) =~= all);
    }
    let mut j: usize = 0;
    while j < links.len()
        invariant
            j <= links@.len(),
            header_view(header) == Option::Some(h@),
            all == links_view(links@),
            all == scan(h@).links,
            scan(h@).mode is AfterEntry,
            first_next(all) == first_next(all.skip(j as int)),
        decreases links@.len() - j,
    {
        let ghost rest = all.skip(j as int);
        if rel_is_next(&links[j].1) {
            proof {
                assert(all[j as int] == (links@[j as int].0@, links@[j as int].1@));
                assert(rest.len() > 0 && rest[0] == all[j as int]);
                assert(first_next(rest) == Option::Some(all[j as int].0));
                assert(spec_next_link(Option::Some(h@)) == Option::Some(links@[j as int].0@));
            }
            let u = string_of_chars(links[j].0.as_slice());
            assert(spec_next_link(header_view(header)) == Option::Some(u@));
            return Option::Some(u);
        }
        j = j + 1;
        proof {
            assert(rest[0] == all[j - 1]);
            assert(rest.drop_first() =~= all.skip(j as int));
        }
    }
    proof {
        assert(all.skip(links@.len() as int) =~= Seq::<(Seq<char>, Seq<char>)>::empty());
    }
    Option::None
}

} // verus!
