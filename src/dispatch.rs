use vstd::prelude::*;

use crate::filter::{all_hold, first_rejecting, Filter};
use crate::format::{render, render_pieces, Piece};
use crate::level::{allows, level_rank, Level, LevelFilter};
use crate::record::Metadata;

verus! {

/// A destination that writes what it receives: a console stream, an opened file or a custom
/// sink, the last two named by the number under which their owner keeps them.
#[derive(Clone, Copy, Debug, PartialEq, Eq, Structural)]
pub enum Endpoint {
    Stdout,
    Stderr,
    File(u64),
    Custom(u64),
}

/// A child of a dispatch node: a destination, or a nested node with its own policy.
#[derive(Debug)]
pub enum Output {
    Stdout,
    Stderr,
    File(u64),
    Custom(u64),
    Dispatch(Box<Dispatch>),
}

/// One write that routing asks for: a formatted line for one destination.
#[derive(Debug)]
pub struct Delivery {
    pub endpoint: Endpoint,
    pub line: String,
}

/// A node of the routing tree: its level floor, its per-target overrides, its filters, its
/// formatter and its children, in the order they were chained.
#[derive(Debug)]
pub struct Dispatch {
    pub format: Option<Vec<Piece>>,
    pub level: LevelFilter,
    pub levels: Vec<(String, LevelFilter)>,
    pub filters: Vec<Filter>,
    pub children: Vec<Output>,
}

/// The override for `target` among `levels`: the last entry with that key.
pub open spec fn override_of(levels: Seq<(String, LevelFilter)>, target: Seq<char>) -> Option<
    LevelFilter,
>
    decreases levels.len(),
{
    if levels.len() == 0 {
        None
    } else if levels.last().0@ == target {
        Some(levels.last().1)
    } else {
        override_of(levels.drop_last(), target)
    }
}

/// The floor that applies to records from `target`: its override, else the node's level.
pub open spec fn effective_level(d: Dispatch, target: Seq<char>) -> LevelFilter {
    match override_of(d.levels@, target) {
        Some(l) => l,
        None => d.level,
    }
}

/// Whether a node accepts a record: its level is let through and every filter holds.
pub open spec fn accepts(d: Dispatch, meta: Metadata) -> bool {
    allows(effective_level(d, meta.target@), meta.level) && all_hold(d.filters@, meta)
}

/// The message that a node hands to its children.
pub open spec fn formatted(d: Dispatch, msg: Seq<char>, meta: Metadata) -> Seq<char> {
    match d.format {
        Some(p) => render(p@, msg, meta),
        None => msg,
    }
}

/// The destination that a leaf child names; a nested node is routed through, never written to,
/// so the value given for it is never used.
pub open spec fn endpoint_of(o: Output) -> Endpoint {
    match o {
        Output::Stdout => Endpoint::Stdout,
        Output::Stderr => Endpoint::Stderr,
        Output::File(n) => Endpoint::File(n),
        Output::Custom(n) => Endpoint::Custom(n),
        Output::Dispatch(_) => Endpoint::Stdout,
    }
}

/// The writes that a node makes for a record with message `msg`, in order.
pub open spec fn route(d: Dispatch, meta: Metadata, msg: Seq<char>) -> Seq<(Endpoint, Seq<char>)>
    decreases d, d.children@.len() + 1,
{
    if accepts(d, meta) {
        children_route(d, d.children@.len() as int, meta, formatted(d, msg, meta))
    } else {
        Seq::empty()
    }
}

/// The writes that the first `k` children of `d` make for the message `msg`, in order.
pub open spec fn children_route(d: Dispatch, k: int, meta: Metadata, msg: Seq<char>) -> Seq<
    (Endpoint, Seq<char>),
>
    decreases d, k,
{
    if k <= 0 || k > d.children@.len() {
        Seq::empty()
    } else {
        children_route(d, k - 1, meta, msg) + child_route(d.children@[k - 1], meta, msg)
    }
}

/// The writes that one child makes for the message `msg`.
pub open spec fn child_route(o: Output, meta: Metadata, msg: Seq<char>) -> Seq<(Endpoint, Seq<char>)>
    decreases o, 0int,
{
    match o {
        Output::Dispatch(b) => route(*b, meta, msg),
        _ => seq![(endpoint_of(o), msg)],
    }
}

/// The writes that a list of deliveries stands for.
pub open spec fn delivered(v: Seq<Delivery>) -> Seq<(Endpoint, Seq<char>)> {
    v.map_values(|x: Delivery| (x.endpoint, x.line@))
}

impl Dispatch {
    /// A node that lets every level through and has no override, filter, formatter or child.
    pub fn new() -> (r: Dispatch)
        ensures
            r.format is None,
            r.level == LevelFilter::Trace,
            r.levels@.len() == 0,
            r.filters@.len() == 0,
            r.children@.len() == 0,
    {
        Dispatch {
            format: None,
            level: LevelFilter::Trace,
            levels: Vec::new(),
            filters: Vec::new(),
            children: Vec::new(),
        }
    }

    /// Sets the formatter, replacing any earlier one.
    pub fn format(self, pieces: Vec<Piece>) -> (r: Dispatch)
        ensures
            r.format == Some(pieces),
            r.level == self.level,
            r.levels == self.levels,
            r.filters == self.filters,
            r.children == self.children,
    {
        Dispatch { format: Some(pieces), ..self }
    }

    /// Sets the default level floor, replacing any earlier one.
    pub fn level(self, level: LevelFilter) -> (r: Dispatch)
        ensures
            r.level == level,
            r.format == self.format,
            r.levels == self.levels,
            r.filters == self.filters,
            r.children == self.children,
    {
        Dispatch { level, ..self }
    }

    /// Sets the level floor for records whose target is exactly `target`, replacing any earlier
    /// one for that target.
    pub fn level_for(self, target: &str, level: LevelFilter) -> (r: Dispatch)
        ensures
            forall|t: Seq<char>| #[trigger]
                override_of(r.levels@, t) == if t == target@ {
                    Some(level)
                } else {
                    override_of(self.levels@, t)
                },
            r.level == self.level,
            r.format == self.format,
            r.filters == self.filters,
            r.children == self.children,
    {
        let mut d = self;
        let ghost before = d.levels@;
        d.levels.push((String::from_str(target), level));
        proof {
            assert(d.levels@.drop_last() =~= before);
        }
        d
    }

    /// Appends a filter; filters are tested in the order they were added.
    pub fn filter(self, f: Filter) -> (r: Dispatch)
        ensures
            r.filters@ == self.filters@.push(f),
            r.level == self.level,
            r.format == self.format,
            r.levels == self.levels,
            r.children == self.children,
    {
        let mut d = self;
        d.filters.push(f);
        d
    }

    /// Appends a child; children receive records in the order they were chained.
    pub fn chain(self, o: Output) -> (r: Dispatch)
        ensures
            r.children@ == self.children@.push(o),
            r.level == self.level,
            r.format == self.format,
            r.levels == self.levels,
            r.filters == self.filters,
    {
        let mut d = self;
        d.children.push(o);
        d
    }

    /// The level floor that applies to records from `target`.
    pub fn effective_level(&self, target: &String) -> (r: LevelFilter)
        ensures
            r == effective_level(*self, target@),
    {
        let mut i: usize = self.levels.len();
        assert(self.levels@.subrange(0, i as int) =~= self.levels@);
        while i > 0
            invariant
                i <= self.levels@.len(),
                override_of(self.levels@, target@) == override_of(
                    self.levels@.subrange(0, i as int),
                    target@,
                ),
            decreases i,
        {
            let ghost pre = self.levels@.subrange(0, i as int);
            assert(pre.drop_last() =~= self.levels@.subrange(0, i - 1));
            if self.levels[i - 1].0 == *target {
                return self.levels[i - 1].1;
            }
            i = i - 1;
        }
        self.level
    }

    /// Whether this node accepts a record: its level floor lets the record through and every
    /// filter holds. Filters are tested in order, up to the first that fails.
    pub fn accepts(&self, meta: &Metadata) -> (r: bool)
        ensures
            r == accepts(*self, *meta),
    {
        let floor = self.effective_level(&meta.target);
        if !floor.allows(meta.level) {
            return false;
        }
        first_rejecting(&self.filters, meta).is_none()
    }

    /// The message that this node hands to its children.
    pub fn apply_format(&self, msg: &str, meta: &Metadata) -> (r: String)
        ensures
            r@ == formatted(*self, msg@, *meta),
    {
        match &self.format {
            Some(p) => render_pieces(p, msg, meta),
            None => String::from_str(msg),
        }
    }

    /// Appends to `out` the writes that this node makes for a record with message `msg`.
    pub fn route_into(&self, meta: &Metadata, msg: &str, out: &mut Vec<Delivery>)
        ensures
            delivered(final(out)@) == delivered(old(out)@) + route(*self, *meta, msg@),
        decreases self,
    {
        if !self.accepts(meta) {
            assert(delivered(out@) =~= delivered(out@) + Seq::<(Endpoint, Seq<char>)>::empty());
            return;
        }
        let line = self.apply_format(msg, meta);
        let mut i: usize = 0;
        while i < self.children.len()
            invariant
                i <= self.children@.len(),
                line@ == formatted(*self, msg@, *meta),
                delivered(out@) == delivered(old(out)@) + children_route(
                    *self,
                    i as int,
                    *meta,
                    line@,
                ),
            decreases self.children@.len() - i,
        {
            let ghost prev = delivered(out@);
            match &self.children[i] {
                Output::Dispatch(b) => {
                    assert(decreases_to!(*self => **b)) by {
                        assert(decreases_to!(self.children => self.children@));
                        assert(decreases_to!(self.children@ => self.children@[i as int]));
                    }
                    b.route_into(meta, line.as_str(), out);
                },
                Output::Stdout => out.push(Delivery { endpoint: Endpoint::Stdout, line: line.clone() }),
                Output::Stderr => out.push(Delivery { endpoint: Endpoint::Stderr, line: line.clone() }),
                Output::File(n) => out.push(Delivery { endpoint: Endpoint::File(*n), line: line.clone() }),
                Output::Custom(n) => out.push(
                    Delivery { endpoint: Endpoint::Custom(*n), line: line.clone() },
                ),
            }
            assert(delivered(out@) =~= prev + child_route(self.children@[i as int], *meta, line@));
            i = i + 1;
        }
    }

    /// The writes that this node makes for a record with message `msg`, in order.
    pub fn route(&self, meta: &Metadata, msg: &str) -> (r: Vec<Delivery>)
        ensures
            delivered(r@) == route(*self, *meta, msg@),
    {
        let mut out: Vec<Delivery> = Vec::new();
        self.route_into(meta, msg, &mut out);
        assert(delivered(Seq::<Delivery>::empty()) =~= Seq::<(Endpoint, Seq<char>)>::empty());
        assert(route(*self, *meta, msg@) =~= Seq::<(Endpoint, Seq<char>)>::empty() + route(*self, *meta, msg@));
        out
    }
}

/// A record less severe than a node's floor of `Warn` reaches none of its destinations, when
/// no override applies to the record's target.
pub proof fn lemma_below_warn_rejected(d: Dispatch, meta: Metadata, msg: Seq<char>)
    requires
        d.level == LevelFilter::Warn,
        override_of(d.levels@, meta.target@) is None,
        level_rank(meta.level) > level_rank(Level::Warn),
    ensures
        route(d, meta, msg) == Seq::<(Endpoint, Seq<char>)>::empty(),
{
}

/// An override of `Debug` for a target lets `Debug` records from that target through even when
/// the node's default floor is `Error`; a record from a target without an override is judged by
/// the default floor alone.
pub proof fn lemma_override_takes_precedence(
    d: Dispatch,
    target: Seq<char>,
    meta: Metadata,
    other: Metadata,
)
    requires
        override_of(d.levels@, target) == Some(LevelFilter::Debug),
        d.level == LevelFilter::Error,
        meta.target@ == target,
        meta.level == Level::Debug,
        other.target@ != target,
        override_of(d.levels@, other.target@) is None,
    ensures
        accepts(d, meta) == all_hold(d.filters@, meta),
        accepts(d, other) == (allows(LevelFilter::Error, other.level) && all_hold(d.filters@, other)),
{
}

/// A node hands its children the message it has formatted: under a node with formatter `f`
/// whose only child is a node with formatter `g` and one destination, a message `m` that both
/// accept arrives there as `g` applied to `f` applied to `m`.
pub proof fn lemma_formats_compose(d: Dispatch, meta: Metadata, msg: Seq<char>)
    requires
        d.format is Some,
        d.children@.len() == 1,
        d.children@[0] is Dispatch,
        (*d.children@[0]->Dispatch_0).format is Some,
        (*d.children@[0]->Dispatch_0).children@.len() == 1,
        !((*d.children@[0]->Dispatch_0).children@[0] is Dispatch),
        accepts(d, meta),
        accepts(*d.children@[0]->Dispatch_0, meta),
    ensures
        route(d, meta, msg) == seq![
            (
                endpoint_of((*d.children@[0]->Dispatch_0).children@[0]),
                render(
                    (*d.children@[0]->Dispatch_0).format->Some_0@,
                    render(d.format->Some_0@, msg, meta),
                    meta,
                ),
            ),
        ],
{
    let c = *d.children@[0]->Dispatch_0;
    let m1 = formatted(d, msg, meta);
    let m2 = formatted(c, m1, meta);
    assert(children_route(c, 0, meta, m2) == Seq::<(Endpoint, Seq<char>)>::empty());
    assert(child_route(c.children@[0], meta, m2) == seq![(endpoint_of(c.children@[0]), m2)]);
    assert(children_route(c, 1, meta, m2) =~= seq![(endpoint_of(c.children@[0]), m2)]);
    assert(children_route(d, 0, meta, m1) == Seq::<(Endpoint, Seq<char>)>::empty());
    assert(child_route(d.children@[0], meta, m1) == route(c, meta, m1));
    assert(children_route(d, 1, meta, m1) =~= route(c, meta, m1));
}

/// A node that accepts a record serves its children in the order they were chained: with two
/// children, every write of the first comes before every write of the second.
pub proof fn lemma_fan_out_in_order(d: Dispatch, meta: Metadata, msg: Seq<char>)
    requires
        d.children@.len() == 2,
        accepts(d, meta),
    ensures
        route(d, meta, msg) == child_route(d.children@[0], meta, formatted(d, msg, meta))
            + child_route(d.children@[1], meta, formatted(d, msg, meta)),
{
    let m = formatted(d, msg, meta);
    assert(children_route(d, 0, meta, m) == Seq::<(Endpoint, Seq<char>)>::empty());
    assert(children_route(d, 1, meta, m) =~= child_route(d.children@[0], meta, m));
}

/// A record that a node rejects makes no write whatever message it carries, so handing it to
/// the node again changes nothing.
pub proof fn lemma_rejection_is_silent(d: Dispatch, meta: Metadata, msg: Seq<char>, again: Seq<char>)
    requires
        !accepts(d, meta),
    ensures
        route(d, meta, msg) == Seq::<(Endpoint, Seq<char>)>::empty(),
        route(d, meta, again) == route(d, meta, msg),
{
}

/// A node whose only child is one file receives, for each record it accepts, exactly one line
/// for that file: the record's message as the node formats it.
pub proof fn lemma_one_line_per_record(d: Dispatch, n: u64, meta: Metadata, msg: Seq<char>)
    requires
        d.children@ == seq![Output::File(n)],
        accepts(d, meta),
    ensures
        route(d, meta, msg) == seq![(Endpoint::File(n), formatted(d, msg, meta))],
{
    let m = formatted(d, msg, meta);
    assert(children_route(d, 0, meta, m) == Seq::<(Endpoint, Seq<char>)>::empty());
    assert(child_route(d.children@[0], meta, m) == seq![(Endpoint::File(n), m)]);
    assert(children_route(d, 1, meta, m) =~= seq![(Endpoint::File(n), m)]);
}

} // verus!
