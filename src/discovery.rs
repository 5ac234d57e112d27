use vstd::prelude::*;

verus! {

/// The framework's verdict on a metadata discovery.
#[derive(Clone, Copy, Debug, PartialEq, Eq, Structural)]
pub enum DiscoveryOutcome {
    Found,
    InvalidUri,
    Error,
    Timeout,
    Busy,
    MissingPlugins,
}

/// Why a discovery produced no metadata.
#[derive(Clone, Copy, Debug, PartialEq, Eq, Structural)]
pub enum DiscoveryFailure {
    InvalidUri,
    Error,
    Timeout,
    Busy,
    MissingPlugins,
}

/// Metadata is reported only for a successful discovery; every other
/// outcome is a failure of the same name.
pub fn check_discovery(outcome: DiscoveryOutcome) -> (r: Result<(), DiscoveryFailure>)
    ensures
        outcome == DiscoveryOutcome::Found <==> r is Ok,
        outcome == DiscoveryOutcome::InvalidUri ==> r == Err::<(), DiscoveryFailure>(
            DiscoveryFailure::InvalidUri,
        ),
        outcome == DiscoveryOutcome::Error ==> r == Err::<(), DiscoveryFailure>(
            DiscoveryFailure::Error,
        ),
        outcome == DiscoveryOutcome::Timeout ==> r == Err::<(), DiscoveryFailure>(
            DiscoveryFailure::Timeout,
        ),
        outcome == DiscoveryOutcome::Busy ==> r == Err::<(), DiscoveryFailure>(
            DiscoveryFailure::Busy,
        ),
        outcome == DiscoveryOutcome::MissingPlugins ==> r == Err::<(), DiscoveryFailure>(
            DiscoveryFailure::MissingPlugins,
        ),
{
    match outcome {
        DiscoveryOutcome::Found => Ok(()),
        DiscoveryOutcome::InvalidUri => Err(DiscoveryFailure::InvalidUri),
        DiscoveryOutcome::Error => Err(DiscoveryFailure::Error),
        DiscoveryOutcome::Timeout => Err(DiscoveryFailure::Timeout),
        DiscoveryOutcome::Busy => Err(DiscoveryFailure::Busy),
        DiscoveryOutcome::MissingPlugins => Err(DiscoveryFailure::MissingPlugins),
    }
}

/// `n` spaces.
pub open spec fn spaces(n: nat) -> Seq<char> {
    Seq::new(n, |i: int| ' ')
}

/// The values joined by ", ".
pub open spec fn joined(values: Seq<Seq<char>>) -> Seq<char>
    decreases values.len(),
{
    if values.len() == 0 {
        Seq::empty()
    } else if values.len() == 1 {
        values[0]
    } else {
        joined(values.drop_last()) + seq![',', ' '] + values.last()
    }
}

/// `text` right-aligned in a field of `width` characters.
pub open spec fn right_aligned(text: Seq<char>, width: nat) -> Seq<char> {
    if text.len() >= width {
        text
    } else {
        spaces((width - text.len()) as nat) + text
    }
}

/// `n` spaces as a string.
pub fn spaces_string(n: usize) -> (r: String)
    ensures
        r@ == spaces(n as nat),
{
    let mut r = String::new();
    let mut i: usize = 0;
    let sp = " ";
    proof {
        reveal_strlit(" ");
    }
    while i < n
        invariant
            i <= n,
            r@ == spaces(i as nat),
            sp@ == seq![' '],
        decreases n - i,
    {
        r.append(sp);
        i = i + 1;
        assert(r@ =~= spaces(i as nat));
    }
    r
}

/// `text` right-aligned in a field of `width` characters.
pub fn align_right(text: &str, width: usize) -> (r: String)
    ensures
        r@ == right_aligned(text@, width as nat),
{
    let len = text.unicode_len();
    if len >= width {
        String::from_str(text)
    } else {
        let pad = spaces_string(width - len);
        pad.concat(text)
    }
}

/// The width of the field that indents a label of `label_len` characters to
/// nesting level `depth`: two columns per level, then the label; None when
/// it does not fit in a `usize`.
pub fn indent_width(depth: usize, label_len: usize) -> (r: Option<usize>)
    ensures
        2 * depth + label_len <= usize::MAX ==> r == Some((2 * depth + label_len) as usize),
        2 * depth + label_len > usize::MAX ==> r is None,
{
    match depth.checked_mul(2) {
        Some(d) => d.checked_add(label_len),
        None => None,
    }
}

/// The values of one tag joined by ", ", in order.
pub fn join_values(values: &Vec<String>) -> (r: String)
    ensures
        r@ == joined(values@.map_values(|v: String| v@)),
{
    let ghost views = values@.map_values(|v: String| v@);
    let mut r = String::new();
    let sep = ", ";
    proof {
        reveal_strlit(", ");
    }
    let mut i: usize = 0;
    while i < values.len()
        invariant
            i <= values@.len(),
            views == values@.map_values(|v: String| v@),
            sep@ == seq![',', ' '],
            r@ == joined(views.subrange(0, i as int)),
        decreases values@.len() - i,
    {
        if i > 0 {
            r.append(sep);
        }
        r.append(values[i].as_str());
        proof {
            let s = views.subrange(0, i + 1);
            assert(s.drop_last() =~= views.subrange(0, i as int));
            assert(s.last() == values@[i as int]@);
            if i == 0 {
                assert(joined(views.subrange(0, 0)) =~= Seq::<char>::empty());
            }
        }
        i = i + 1;
    }
    assert(views.subrange(0, values@.len() as int) =~= views);
    r
}

/// One stream of a discovered topology: the stream it wraps, if any, and, for
/// a container, the streams it holds. Both point to later entries.
pub struct StreamEntry {
    pub next: Option<usize>,
    pub streams: Vec<usize>,
}

/// The order in which the topology below stream `i` is reported, each stream
/// with its nesting depth: the stream itself, then the stream it wraps one
/// level deeper, or else each stream of the container one level deeper.
/// Links that do not point to a later entry are not followed.
pub open spec fn walk(t: Seq<StreamEntry>, i: int, depth: int) -> Seq<(usize, usize)>
    decreases t.len() - i, 1int, 0int,
{
    if !(0 <= i < t.len()) {
        Seq::empty()
    } else {
        seq![(i as usize, depth as usize)] + match t[i].next {
            Some(n) => if i < n < t.len() {
                walk(t, n as int, depth + 1)
            } else {
                Seq::empty()
            },
            None => walk_list(t, i, 0, depth + 1),
        }
    }
}

/// The topology below streams `k..` of container `p`, at nesting `depth`.
pub open spec fn walk_list(t: Seq<StreamEntry>, p: int, k: int, depth: int) -> Seq<(usize, usize)>
    decreases t.len() - p, 0int, (if 0 <= p < t.len() { t[p].streams@.len() - k } else { 0 }),
{
    if !(0 <= p < t.len()) || k < 0 || k >= t[p].streams@.len() {
        Seq::empty()
    } else {
        let c = t[p].streams@[k] as int;
        (if p < c < t.len() {
            walk(t, c, depth)
        } else {
            Seq::empty()
        }) + walk_list(t, p, k + 1, depth)
    }
}

fn walk_into(t: &Vec<StreamEntry>, i: usize, depth: usize, out: &mut Vec<(usize, usize)>)
    requires
        i < t@.len(),
        depth + (t@.len() - i) <= usize::MAX,
    ensures
        final(out)@ == old(out)@ + walk(t@, i as int, depth as int),
    decreases t@.len() - i, 1int, 0int,
{
    let ghost start = out@;
    out.push((i, depth));
    match t[i].next {
        Some(n) => {
            if i < n && n < t.len() {
                walk_into(t, n, depth + 1, out);
            }
        },
        None => {
            walk_list_into(t, i, 0, depth + 1, out);
        },
    }
    assert(out@ =~= start + walk(t@, i as int, depth as int));
}

fn walk_list_into(
    t: &Vec<StreamEntry>,
    p: usize,
    k: usize,
    depth: usize,
    out: &mut Vec<(usize, usize)>,
)
    requires
        p < t@.len(),
        k <= t@[p as int].streams@.len(),
        depth + (t@.len() - p) <= usize::MAX + 1,
    ensures
        final(out)@ == old(out)@ + walk_list(t@, p as int, k as int, depth as int),
    decreases t@.len() - p, 0int, t@[p as int].streams@.len() - k,
{
    let ghost start = out@;
    if k >= t[p].streams.len() {
        assert(out@ =~= start + walk_list(t@, p as int, k as int, depth as int));
        return;
    }
    let c = t[p].streams[k];
    if p < c && c < t.len() {
        walk_into(t, c, depth, out);
    }
    walk_list_into(t, p, k + 1, depth, out);
    assert(out@ =~= start + walk_list(t@, p as int, k as int, depth as int));
}

/// The streams below `root`, in the order they are reported, each with its
/// nesting depth; the root stream is at depth 1. Empty when `root` is not
/// an entry.
pub fn topology_order(t: &Vec<StreamEntry>, root: usize) -> (r: Vec<(usize, usize)>)
    ensures
        t@.len() < usize::MAX ==> r@ == walk(t@, root as int, 1),
{
    let mut out: Vec<(usize, usize)> = Vec::new();
    if root < t.len() && t.len() < usize::MAX {
        walk_into(t, root, 1, &mut out);
    }
    assert(out@ =~= Seq::<(usize, usize)>::empty() + out@);
    out
}

} // verus!
