//! The pretty renderer: an indented, human-readable view of a tree.
//!
//! Each line starts with the node's shared attributes (correlation id and
//! timestamp when present, then the level), followed by one indent marker
//! per ancestor depth. Span lines show the span's duration, auto-scaled
//! across `ns`, `µs`, `ms` and `s`, and its load as a percentage of the
//! root span's total duration.
use crate::id::spec_uuid_display;
use crate::level::spec_level_padded;
use crate::tag::spec_tag_display;
use crate::text::{push_decimal, push_spaces, spec_decimal, spec_digit, spec_spaces};
use crate::time::rfc3339_of;
use crate::tree::{wf_shared, wf_span, wf_tree, Event, KeyValue, Shared, Span, Tree};
use vstd::prelude::*;

verus! {

/// One level of indentation in front of a rendered line.
#[derive(Debug, Clone, Copy, PartialEq, Eq, Structural)]
pub enum Edge {
    /// Blank: no sibling follows at this depth.
    Null,
    /// A continuing vertical line: a sibling still follows deeper down.
    Line,
    /// A branch: the node at this depth, with a sibling following.
    Fork,
    /// The last branch: the node at this depth is the last sibling.
    Turn,
}

/// The three columns an indent marker occupies.
pub open spec fn spec_edge_repr(e: Edge) -> Seq<char> {
    match e {
        Edge::Null => "   "@,
        Edge::Line => "│  "@,
        Edge::Fork => "┝━ "@,
        Edge::Turn => "┕━ "@,
    }
}

impl Edge {
    /// Returns the three columns the marker occupies.
    pub fn repr(&self) -> (r: &'static str)
        ensures
            r@ == spec_edge_repr(*self),
    {
        match self {
            Edge::Null => "   ",
            Edge::Line => "│  ",
            Edge::Fork => "┝━ ",
            Edge::Turn => "┕━ ",
        }
    }
}

/// The concatenated markers of an indent stack, leftmost first.
pub open spec fn spec_indent(ind: Seq<Edge>) -> Seq<char>
    decreases ind.len(),
{
    if ind.len() == 0 {
        Seq::empty()
    } else {
        spec_indent(ind.drop_last()) + spec_edge_repr(ind.last())
    }
}

/// How a marker changes when rendering descends below its depth: a branch
/// becomes a continuing line, a last branch becomes blank, so that vertical
/// connectors only appear where a sibling still follows.
pub open spec fn spec_norm_edge(e: Edge) -> Edge {
    match e {
        Edge::Turn => Edge::Null,
        Edge::Fork => Edge::Line,
        Edge::Line => Edge::Line,
        Edge::Null => Edge::Null,
    }
}

/// An indent stack with its deepest marker normalized for descending.
pub open spec fn spec_normalize(ind: Seq<Edge>) -> Seq<Edge> {
    if ind.len() == 0 {
        ind
    } else {
        ind.update(ind.len() - 1, spec_norm_edge(ind.last()))
    }
}

/// A value scaled into a unit with `pow` fixed-point digits, rounding half
/// up: `round(ns * pow / scale)`.
pub open spec fn spec_fixed(ns: int, scale: int, pow: int) -> int {
    (ns * pow + scale / 2) / scale
}

/// The digits of a duration within one unit: two decimal places below ten
/// units, one below a hundred, none above.
pub open spec fn spec_scaled_digits(ns: int, scale: int) -> Seq<char> {
    if ns < 10 * scale {
        let m = spec_fixed(ns, scale, 100);
        spec_decimal(m / 100) + "."@ + seq![spec_digit(m / 10 % 10), spec_digit(m % 10)]
    } else if ns < 100 * scale {
        let m = spec_fixed(ns, scale, 10);
        spec_decimal(m / 10) + "."@ + seq![spec_digit(m % 10)]
    } else {
        spec_decimal(spec_fixed(ns, scale, 1))
    }
}

/// A duration in nanoseconds, auto-scaled across `ns`, `µs`, `ms` and `s`
/// at factor-1000 boundaries.
pub open spec fn spec_duration_display(ns: int) -> Seq<char> {
    if ns < 1_000 {
        spec_scaled_digits(ns, 1) + "ns"@
    } else if ns < 1_000_000 {
        spec_scaled_digits(ns, 1_000) + "µs"@
    } else if ns < 1_000_000_000 {
        spec_scaled_digits(ns, 1_000_000) + "ms"@
    } else {
        spec_scaled_digits(ns, 1_000_000_000) + "s"@
    }
}

/// A percentage of `part` against `root` with three decimal places,
/// rounding half up. A zero root renders as `NaN`, the way a floating-point
/// division of zero by zero would print.
pub open spec fn spec_percent(part: int, root: int) -> Seq<char> {
    if root == 0 {
        "NaN"@
    } else {
        let m = (part * 100_000 + root / 2) / root;
        spec_decimal(m / 1000) + "."@
            + seq![spec_digit(m / 100 % 10), spec_digit(m / 10 % 10), spec_digit(m % 10)]
    }
}

fn push_scaled_digits(out: &mut String, ns: u64, scale: u64)
    requires
        1 <= scale <= 1_000_000_000,
    ensures
        final(out)@ == old(out)@ + spec_scaled_digits(ns as int, scale as int),
{
    let ns128 = ns as u128;
    let sc = scale as u128;
    if ns < 10 * scale {
        let m = (ns128 * 100 + sc / 2) / sc;
        push_decimal(out, m / 100);
        out.push('.');
        push_digit(out, (m / 10 % 10) as u8);
        push_digit(out, (m % 10) as u8);
        proof {
            reveal_strlit(".");
            let msp = spec_fixed(ns as int, scale as int, 100);
            assert(m == msp);
            assert(out@ =~= old(out)@ + spec_scaled_digits(ns as int, scale as int));
        }
    } else if ns < 100 * scale {
        let m = (ns128 * 10 + sc / 2) / sc;
        push_decimal(out, m / 10);
        out.push('.');
        push_digit(out, (m % 10) as u8);
        proof {
            reveal_strlit(".");
            let msp = spec_fixed(ns as int, scale as int, 10);
            assert(m == msp);
            assert(out@ =~= old(out)@ + spec_scaled_digits(ns as int, scale as int));
        }
    } else {
        let m = (ns128 + sc / 2) / sc;
        push_decimal(out, m);
        proof {
            let msp = spec_fixed(ns as int, scale as int, 1);
            assert(m == msp);
            assert(out@ =~= old(out)@ + spec_scaled_digits(ns as int, scale as int));
        }
    }
}

fn push_digit(out: &mut String, d: u8)
    requires
        d < 10,
    ensures
        final(out)@ == old(out)@.push(spec_digit(d as int)),
{
    if d == 0 {
        out.push('0')
    } else if d == 1 {
        out.push('1')
    } else if d == 2 {
        out.push('2')
    } else if d == 3 {
        out.push('3')
    } else if d == 4 {
        out.push('4')
    } else if d == 5 {
        out.push('5')
    } else if d == 6 {
        out.push('6')
    } else if d == 7 {
        out.push('7')
    } else if d == 8 {
        out.push('8')
    } else {
        out.push('9')
    }
}

/// Appends the auto-scaled rendering of a duration in nanoseconds.
pub fn push_duration(out: &mut String, ns: u64)
    ensures
        final(out)@ == old(out)@ + spec_duration_display(ns as int),
{
    if ns < 1_000 {
        push_scaled_digits(out, ns, 1);
        out.append("ns");
    } else if ns < 1_000_000 {
        push_scaled_digits(out, ns, 1_000);
        out.append("µs");
    } else if ns < 1_000_000_000 {
        push_scaled_digits(out, ns, 1_000_000);
        out.append("ms");
    } else {
        push_scaled_digits(out, ns, 1_000_000_000);
        out.append("s");
    }
    proof {
        assert(out@ =~= old(out)@ + spec_duration_display(ns as int));
    }
}

/// Appends the percentage of `part` against `root` with three decimal
/// places, or `NaN` when the root duration is zero.
pub fn push_percent(out: &mut String, part: u64, root: u64)
    ensures
        final(out)@ == old(out)@ + spec_percent(part as int, root as int),
{
    if root == 0 {
        out.append("NaN");
    } else {
        let m = ((part as u128) * 100_000 + (root as u128) / 2) / (root as u128);
        push_decimal(out, m / 1000);
        out.push('.');
        push_digit(out, (m / 100 % 10) as u8);
        push_digit(out, (m / 10 % 10) as u8);
        push_digit(out, (m % 10) as u8);
        proof {
            reveal_strlit(".");
            assert(m == (part as int * 100_000 + root as int / 2) / root as int);
            assert(out@ =~= old(out)@ + spec_percent(part as int, root as int));
        }
    }
}

/// A rendered timestamp padded with spaces to at least thirty-two columns.
pub open spec fn spec_pad32(s: Seq<char>) -> Seq<char> {
    s + spec_spaces(32 - s.len())
}

/// The line prefix of a node: correlation id and timestamp when present,
/// then the level name padded to eight columns, each part followed by one
/// space.
pub open spec fn spec_fmt_shared(s: Shared) -> Seq<char> {
    (match s.uuid {
        Some(u) => spec_uuid_display(u.bytes@) + " "@,
        None => Seq::empty(),
    }) + (match s.timestamp {
        Some(t) => spec_pad32(rfc3339_of(t.secs as int, t.nanos as int)) + " "@,
        None => Seq::empty(),
    }) + spec_level_padded(s.level)
}

/// The rendered key-value fields of an event, each preceded by a
/// separator.
pub open spec fn spec_fmt_fields(fs: Seq<KeyValue>) -> Seq<char>
    decreases fs.len(),
{
    if fs.len() == 0 {
        Seq::empty()
    } else {
        spec_fmt_fields(fs.drop_last()) + " | "@ + fs.last().key@ + ": "@ + fs.last().value@
    }
}

/// The line body of an event: icon, bracketed tag, message, and fields.
pub open spec fn spec_fmt_event_line(e: Event) -> Seq<char> {
    Seq::empty().push(e.tag.icon) + " ["@ + spec_tag_display(e.tag) + "]: "@ + (match e.message {
        Some(m) => m@,
        None => Seq::empty(),
    }) + spec_fmt_fields(e.fields@) + "\n"@
}

/// The line body of a span: name, bracketed duration, and load
/// percentages. The exclusive load is shown only when the span has nested
/// time; percentages are relative to the root span's total duration.
pub open spec fn spec_fmt_span_line(s: Span, root: u64) -> Seq<char> {
    if s.inner_nanos > 0 {
        s.name@ + " [ "@ + spec_duration_display(s.total_nanos as int) + " | "@ + spec_percent(
            s.total_nanos - s.inner_nanos,
            root as int,
        ) + "% / "@ + spec_percent(s.total_nanos as int, root as int) + "% ]\n"@
    } else {
        s.name@ + " [ "@ + spec_duration_display(s.total_nanos as int) + " | "@ + spec_percent(
            s.total_nanos as int,
            root as int,
        ) + "% ]\n"@
    }
}

/// The rendering of a whole node at the given indent: prefix, indent
/// markers, the node's own line, and, for a span, all children. The root
/// duration for percentages is the outermost span's total and is passed
/// down unchanged.
pub open spec fn spec_fmt_tree(t: Tree, root: Option<u64>, ind: Seq<Edge>) -> Seq<char>
    decreases t, 0int,
{
    match t {
        Tree::Event(e) => spec_fmt_shared(e.shared) + spec_indent(ind) + spec_fmt_event_line(e),
        Tree::Span(s) => {
            let rt = match root {
                Some(r) => r,
                None => s.total_nanos,
            };
            spec_fmt_shared(s.shared) + spec_indent(ind) + spec_fmt_span_line(s, rt)
                + spec_fmt_children(s.children, s.children@.len() as int, rt, spec_normalize(ind))
        },
    }
}

/// The rendering of the first `i` children of a span, below the normalized
/// indent `base`: every child but the last gets a branch marker, the last
/// gets the last-branch marker.
pub open spec fn spec_fmt_children(children: Vec<Tree>, i: int, root: u64, base: Seq<Edge>) -> Seq<
    char,
>
    decreases children, i,
{
    if i <= 0 || i > children@.len() {
        Seq::empty()
    } else {
        spec_fmt_children(children, i - 1, root, base) + spec_fmt_tree(
            children@[i - 1],
            Some(root),
            base.push(
                if i == children@.len() {
                    Edge::Turn
                } else {
                    Edge::Fork
                },
            ),
        )
    }
}

proof fn lemma_assoc3<A>(o: Seq<A>, a: Seq<A>, b: Seq<A>, c: Seq<A>)
    ensures
        o + a + b + c == o + (a + b + c),
{
    assert(o + a + b + c =~= o + (a + b + c));
}

proof fn lemma_assoc4<A>(o: Seq<A>, a: Seq<A>, b: Seq<A>, c: Seq<A>, d: Seq<A>)
    ensures
        o + a + b + c + d == o + (a + b + c + d),
{
    assert(o + a + b + c + d =~= o + (a + b + c + d));
}

fn norm_edge(e: Edge) -> (r: Edge)
    ensures
        r == spec_norm_edge(e),
{
    match e {
        Edge::Turn => Edge::Null,
        Edge::Fork => Edge::Line,
        Edge::Line => Edge::Line,
        Edge::Null => Edge::Null,
    }
}

fn copy_edges(v: &Vec<Edge>) -> (r: Vec<Edge>)
    ensures
        r@ == v@,
{
    let mut r: Vec<Edge> = Vec::new();
    let mut i: usize = 0;
    while i < v.len()
        invariant
            i <= v@.len(),
            r@ == v@.subrange(0, i as int),
        decreases v@.len() - i,
    {
        r.push(v[i]);
        i = i + 1;
        proof {
            assert(r@ =~= v@.subrange(0, i as int));
        }
    }
    proof {
        assert(r@ =~= v@);
    }
    r
}

fn push_shared(out: &mut String, s: &Shared)
    requires
        wf_shared(*s),
    ensures
        final(out)@ == old(out)@ + spec_fmt_shared(*s),
{
    let ghost uuid_part: Seq<char> = match s.uuid {
        Some(u) => spec_uuid_display(u.bytes@) + " "@,
        None => Seq::empty(),
    };
    let ghost ts_part: Seq<char> = match s.timestamp {
        Some(t) => spec_pad32(rfc3339_of(t.secs as int, t.nanos as int)) + " "@,
        None => Seq::empty(),
    };
    match &s.uuid {
        Some(u) => {
            let d = u.display_string();
            out.append(d.as_str());
            out.append(" ");
            proof {
                vstd::seq_lib::lemma_concat_associative(old(out)@, d@, " "@);
            }
        },
        None => {
            proof {
                assert(out@ =~= old(out)@ + uuid_part);
            }
        },
    }
    let ghost mid = out@;
    match &s.timestamp {
        Some(t) => {
            let d = t.rfc3339_string();
            let n = d.as_str().unicode_len();
            out.append(d.as_str());
            if n < 32 {
                push_spaces(out, 32 - n);
            } else {
                proof {
                    assert(spec_spaces(32 - d@.len()) =~= Seq::<char>::empty());
                    assert(out@ =~= mid + d@ + spec_spaces(32 - d@.len()));
                }
            }
            out.append(" ");
            proof {
                lemma_assoc3(mid, d@, spec_spaces(32 - d@.len()), " "@);
            }
        },
        None => {
            proof {
                assert(out@ =~= mid + ts_part);
            }
        },
    }
    out.append(s.level.padded_str());
    proof {
        lemma_assoc3(old(out)@, uuid_part, ts_part, spec_level_padded(s.level));
    }
}

fn push_indent(out: &mut String, ind: &Vec<Edge>)
    ensures
        final(out)@ == old(out)@ + spec_indent(ind@),
{
    let mut i: usize = 0;
    while i < ind.len()
        invariant
            i <= ind@.len(),
            out@ == old(out)@ + spec_indent(ind@.subrange(0, i as int)),
        decreases ind@.len() - i,
    {
        out.append(ind[i].repr());
        i = i + 1;
        proof {
            let pre = ind@.subrange(0, i - 1 as int);
            let cur = ind@.subrange(0, i as int);
            assert(cur.drop_last() =~= pre);
            assert(cur.last() == ind@[i - 1]);
        }
    }
    proof {
        assert(ind@.subrange(0, ind@.len() as int) =~= ind@);
    }
}

pub(crate) fn push_fields(out: &mut String, fields: &Vec<KeyValue>)
    ensures
        final(out)@ == old(out)@ + spec_fmt_fields(fields@),
{
    let mut i: usize = 0;
    while i < fields.len()
        invariant
            i <= fields@.len(),
            out@ == old(out)@ + spec_fmt_fields(fields@.subrange(0, i as int)),
        decreases fields@.len() - i,
    {
        out.append(" | ");
        out.append(fields[i].key());
        out.append(": ");
        out.append(fields[i].value());
        i = i + 1;
        proof {
            let pre = fields@.subrange(0, i - 1 as int);
            let cur = fields@.subrange(0, i as int);
            assert(cur.drop_last() =~= pre);
            assert(cur.last() == fields@[i - 1]);
            assert(out@ =~= old(out)@ + spec_fmt_fields(cur));
        }
    }
    proof {
        assert(fields@.subrange(0, fields@.len() as int) =~= fields@);
    }
}

fn push_event_line(out: &mut String, e: &Event)
    ensures
        final(out)@ == old(out)@ + spec_fmt_event_line(*e),
{
    out.push(e.tag.icon());
    proof {
        assert(out@ =~= old(out)@ + Seq::<char>::empty().push(e.tag.icon));
    }
    out.append(" [");
    let td = e.tag.display_string();
    out.append(td.as_str());
    out.append("]: ");
    match &e.message {
        Some(m) => out.append(m.as_str()),
        None => {},
    }
    push_fields(out, &e.fields);
    out.append("\n");
    proof {
        assert(out@ =~= old(out)@ + spec_fmt_event_line(*e));
    }
}

/// Renders one node and its descendants at the given indent, appending to
/// `out`. Percentages are computed against `root`, or against the node's
/// own total when `root` is `None`.
#[verifier::rlimit(50)]
pub fn format_tree(tree: &Tree, root: Option<u64>, ind: &Vec<Edge>, out: &mut String)
    requires
        wf_tree(*tree),
    ensures
        final(out)@ == old(out)@ + spec_fmt_tree(*tree, root, ind@),
    decreases *tree,
{
    match tree {
        Tree::Event(e) => {
            push_shared(out, &e.shared);
            push_indent(out, ind);
            push_event_line(out, e);
            proof {
                lemma_assoc3(
                    old(out)@,
                    spec_fmt_shared(e.shared),
                    spec_indent(ind@),
                    spec_fmt_event_line(*e),
                );
            }
        },
        Tree::Span(s) => {
            push_shared(out, &s.shared);
            push_indent(out, ind);
            let rt = match root {
                Some(r) => r,
                None => s.total_nanos,
            };
            if s.inner_nanos > 0 {
                out.append(s.name);
                out.append(" [ ");
                push_duration(out, s.total_nanos);
                out.append(" | ");
                push_percent(out, s.total_nanos - s.inner_nanos, rt);
                out.append("% / ");
                push_percent(out, s.total_nanos, rt);
                out.append("% ]\n");
            } else {
                out.append(s.name);
                out.append(" [ ");
                push_duration(out, s.total_nanos);
                out.append(" | ");
                push_percent(out, s.total_nanos, rt);
                out.append("% ]\n");
            }
            proof {
                assert(out@ == old(out)@ + spec_fmt_shared(s.shared) + spec_indent(ind@)
                    + spec_fmt_span_line(*s, rt));
            }
            let ghost pre = out@;
            let mut base = copy_edges(ind);
            if base.len() > 0 {
                let last = base.len() - 1;
                let ne = norm_edge(base[last]);
                base[last] = ne;
            }
            proof {
                assert(base@ =~= spec_normalize(ind@));
            }
            let n = s.children.len();
            let mut i: usize = 0;
            while i < n
                invariant
                    i <= n,
                    n == s.children@.len(),
                    base@ == spec_normalize(ind@),
                    wf_span(*s),
                    *tree == Tree::Span(*s),
                    out@ == pre + spec_fmt_children(s.children, i as int, rt, spec_normalize(ind@)),
                decreases n - i,
            {
                let mut ci = copy_edges(&base);
                if i + 1 == n {
                    ci.push(Edge::Turn);
                } else {
                    ci.push(Edge::Fork);
                }
                proof {
                    assert(decreases_to!(*tree => tree->Span_0));
                    assert(tree->Span_0 == *s);
                    assert(decreases_to!(*s => s.children));
                    assert(decreases_to!(s.children => s.children@));
                    assert(decreases_to!(s.children@ => s.children@[i as int]));
                    assert(decreases_to!(*tree => s.children@[i as int]));
                }
                format_tree(&s.children[i], Some(rt), &ci, out);
                i = i + 1;
                proof {
                    let rendered = spec_fmt_tree(
                        s.children@[i - 1],
                        Some(rt),
                        spec_normalize(ind@).push(
                            if i == n {
                                Edge::Turn
                            } else {
                                Edge::Fork
                            },
                        ),
                    );
                    vstd::seq_lib::lemma_concat_associative(
                        pre,
                        spec_fmt_children(s.children, i - 1 as int, rt, spec_normalize(ind@)),
                        rendered,
                    );
                }
            }
            proof {
                if n == 0 {
                    assert(out@ =~= pre + spec_fmt_children(
                        s.children,
                        0int,
                        rt,
                        spec_normalize(ind@),
                    ));
                }
                lemma_assoc4(
                    old(out)@,
                    spec_fmt_shared(s.shared),
                    spec_indent(ind@),
                    spec_fmt_span_line(*s, rt),
                    spec_fmt_children(
                        s.children,
                        s.children@.len() as int,
                        rt,
                        spec_normalize(ind@),
                    ),
                );
            }
        },
    }
}

/// The pretty formatter: renders a tree to an indented, annotated string.
#[derive(Debug, Clone, Copy)]
pub struct Pretty;

impl Pretty {
    /// Returns a new pretty formatter.
    pub fn new() -> (r: Pretty)
        ensures
            r == Pretty,
    {
        Pretty
    }

    /// Renders a whole tree to a string, percentages relative to the
    /// outermost span's total duration.
    pub fn fmt_string(&self, tree: &Tree) -> (r: String)
        requires
            wf_tree(*tree),
        ensures
            r@ == spec_fmt_tree(*tree, None, Seq::empty()),
    {
        let mut out = String::new();
        let ind: Vec<Edge> = Vec::new();
        proof {
            assert(ind@ =~= Seq::<Edge>::empty());
        }
        format_tree(tree, None, &ind, &mut out);
        out
    }
}

} // verus!
