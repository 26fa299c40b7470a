use vstd::prelude::*;
use vstd::utf8::*;

use core::marker::PhantomData;

use crate::cpu::Cpu;
use crate::error::CpuPowerError;
use crate::result::Result;
use crate::stat::Stat;
use crate::text::utf8_string;
use crate::types::{CpuId, Frequency};

verus! {

/// What a result holds, with its elements replaced by their views.
pub open spec fn outcome_view<R: View>(r: Result<Vec<R>>) -> core::result::Result<
    Seq<R::V>,
    CpuPowerError,
> {
    match r {
        Ok(v) => Ok(v@.map_values(|x: R| x@)),
        Err(e) => Err(e),
    }
}

/// One shape of native list: the plain copy of one of its nodes, and how such
/// a node becomes an element of the result.
///
/// The native library hands out each list as a chain of nodes behind a head,
/// which must be released exactly once, after the last node that is read:
/// at the end of the chain, or at the first node that gives no element. The
/// walk over that chain is the same for every shape: it is [`Extraction`]
/// and [`Walk`].
pub trait Extract: Sized {
    /// What one node holds, copied out of native memory.
    type Source;

    /// What an element is, as seen in contracts.
    type Value;

    /// The owned element that a node becomes.
    type Element: View<V = Self::Value>;

    /// The element that a node gives, or the reason it gives none.
    spec fn value_of(node: Self::Source) -> core::result::Result<Self::Value, CpuPowerError>;

    /// Converts one node into an owned element.
    fn get_value(node: Self::Source) -> (r: Result<Self::Element>)
        ensures
            r matches Ok(v) ==> Self::value_of(node) == Ok::<Self::Value, CpuPowerError>(v@),
            r matches Err(e) ==> Self::value_of(node) == Err::<Self::Value, CpuPowerError>(e),
    ;

    /// Starts reading the list of this shape that belongs to cpu `id`.
    fn extract(id: CpuId) -> (r: Extraction<Self>)
        ensures
            r.cpu() == id,
    {
        Extraction { cpu: id, shape: PhantomData }
    }
}

/// The result of a whole walk over `nodes`: the elements in chain order, or
/// the failure of the first node that gives none.
pub open spec fn chain_result<S: Extract>(nodes: Seq<S::Source>) -> core::result::Result<
    Seq<S::Value>,
    CpuPowerError,
>
    decreases nodes.len(),
{
    if nodes.len() == 0 {
        Ok(seq![])
    } else {
        match S::value_of(nodes[0]) {
            Err(e) => Err(e),
            Ok(v) => match chain_result::<S>(nodes.drop_first()) {
                Ok(rest) => Ok(seq![v] + rest),
                Err(e) => Err(e),
            },
        }
    }
}

/// One step of a walk, as seen from outside: go on with the elements read so
/// far, or release the list and return the outcome.
pub enum WalkView<V> {
    Continue(Seq<V>),
    Released(core::result::Result<Seq<V>, CpuPowerError>),
}

/// What a walk that has read `items` does with the next report: `None` is
/// the end of the chain.
pub open spec fn walk_step<S: Extract>(items: Seq<S::Value>, node: Option<S::Source>) -> WalkView<
    S::Value,
> {
    match node {
        None => WalkView::Released(Ok(items)),
        Some(n) => match S::value_of(n) {
            Ok(v) => WalkView::Continue(items.push(v)),
            Err(e) => WalkView::Released(Err(e)),
        },
    }
}

/// The steps a walk that has read `items` takes on `reports`, up to and
/// including the one that releases the list.
pub open spec fn walk_trace<S: Extract>(
    items: Seq<S::Value>,
    reports: Seq<Option<S::Source>>,
) -> Seq<WalkView<S::Value>>
    decreases reports.len(),
{
    if reports.len() == 0 {
        seq![]
    } else {
        let step = walk_step::<S>(items, reports[0]);
        match step {
            WalkView::Continue(next) => seq![step] + walk_trace::<S>(next, reports.drop_first()),
            WalkView::Released(_) => seq![step],
        }
    }
}

/// The reports of a walk over a chain: each node, then the end.
pub open spec fn chain_reports<T>(nodes: Seq<T>) -> Seq<Option<T>> {
    nodes.map_values(|n: T| Some(n)).push(None)
}

/// A list query that waits for the head of its native list.
pub struct Extraction<S> {
    cpu: CpuId,
    shape: PhantomData<S>,
}

/// What follows the report on the head of a list.
pub enum HeadStep<S: Extract> {
    /// The head is there: read the first node and report it to the walk.
    Walk(Walk<S>),
    /// There is no head: nothing is held, return the outcome.
    Finish(Result<Vec<S::Element>>),
}

/// A walk over the nodes of a list whose head is held.
pub struct Walk<S: Extract> {
    items: Vec<S::Element>,
    shape: PhantomData<S>,
}

/// What follows the report on one node.
pub enum NodeStep<S: Extract> {
    /// Read the next node and report it to the walk.
    ReadNode(Walk<S>),
    /// Release the head of the list, then return the outcome.
    Release(Result<Vec<S::Element>>),
}

impl<S: Extract> View for Walk<S> {
    type V = Seq<S::Value>;

    closed spec fn view(&self) -> Seq<S::Value> {
        self.items@.map_values(|x: S::Element| x@)
    }
}

/// A node step as seen from outside.
pub open spec fn node_step_view<S: Extract>(step: NodeStep<S>) -> WalkView<S::Value> {
    match step {
        NodeStep::ReadNode(w) => WalkView::Continue(w@),
        NodeStep::Release(r) => WalkView::Released(outcome_view(r)),
    }
}

impl<S> Extraction<S> {
    /// The cpu whose list is asked for.
    pub closed spec fn cpu(&self) -> CpuId {
        self.cpu
    }

    /// The cpu whose list is to be obtained from the native library.
    pub fn get_cpu(&self) -> (r: CpuId)
        ensures
            r == self.cpu(),
    {
        self.cpu
    }
}

impl<S: Extract> Extraction<S> {
    /// Takes the report on the head of the list: whether the native library
    /// returned one, and the error register read right after the call.
    pub fn on_head(self, present: bool, errno: i32) -> (r: HeadStep<S>)
        ensures
            present ==> (r matches HeadStep::Walk(w) && w@ == Seq::<S::Value>::empty()),
            !present ==> (r matches HeadStep::Finish(res) && outcome_view(res) == Err::<
                Seq<S::Value>,
                CpuPowerError,
            >(CpuPowerError::SystemError(errno))),
    {
        if present {
            let w = Walk { items: Vec::new(), shape: PhantomData };
            assert(w@ =~= Seq::<S::Value>::empty());
            HeadStep::Walk(w)
        } else {
            HeadStep::Finish(Err(CpuPowerError::SystemError(errno)))
        }
    }
}

impl<S: Extract> Walk<S> {
    /// Takes the report on the next node: its plain copy, or `None` at the end
    /// of the chain.
    pub fn on_node(self, node: Option<S::Source>) -> (r: NodeStep<S>)
        ensures
            node_step_view(r) == walk_step::<S>(self@, node),
    {
        let Walk { mut items, shape } = self;
        match node {
            None => {
                let r = NodeStep::Release(Ok(items));
                assert(node_step_view(r) == walk_step::<S>(self@, node));
                r
            },
            Some(n) => {
                let value = S::get_value(n);
                match value {
                    Ok(v) => {
                        items.push(v);
                        let w = Walk { items, shape };
                        assert(w@ =~= self@.push(v@));
                        NodeStep::ReadNode(w)
                    },
                    Err(e) => NodeStep::Release(Err(e)),
                }
            },
        }
    }
}

/// `r` with `items` put before its elements.
spec fn after<V>(items: Seq<V>, r: core::result::Result<Seq<V>, CpuPowerError>) -> core::result::Result<
    Seq<V>,
    CpuPowerError,
> {
    match r {
        Ok(vs) => Ok(items + vs),
        Err(e) => Err(e),
    }
}

proof fn lemma_chain_reports_split<T>(nodes: Seq<T>)
    requires
        nodes.len() > 0,
    ensures
        chain_reports(nodes)[0] == Some(nodes[0]),
        chain_reports(nodes).drop_first() == chain_reports(nodes.drop_first()),
{
    assert(chain_reports(nodes).drop_first() =~= chain_reports(nodes.drop_first()));
}

proof fn lemma_walk_from<S: Extract>(items: Seq<S::Value>, nodes: Seq<S::Source>)
    ensures
        ({
            let t = walk_trace::<S>(items, chain_reports(nodes));
            &&& 1 <= t.len() <= nodes.len() + 1
            &&& forall|i: int| 0 <= i < t.len() - 1 ==> #[trigger] t[i] is Continue
            &&& t.last() == WalkView::Released(after(items, chain_result::<S>(nodes)))
            &&& chain_result::<S>(nodes) is Err ==> {
                &&& t.len() <= nodes.len()
                &&& S::value_of(nodes[t.len() - 1]) is Err
                &&& forall|j: int| 0 <= j < t.len() - 1 ==> #[trigger] S::value_of(nodes[j]) is Ok
            }
        }),
    decreases nodes.len(),
{
    let reports = chain_reports(nodes);
    if nodes.len() == 0 {
        assert(reports =~= seq![None]);
        assert(reports.drop_first() =~= Seq::<Option<S::Source>>::empty());
        assert(after(items, chain_result::<S>(nodes)) == Ok::<Seq<S::Value>, CpuPowerError>(items)) by {
            assert(items + seq![] =~= items);
        }
    } else {
        lemma_chain_reports_split(nodes);
        let rest = nodes.drop_first();
        let t = walk_trace::<S>(items, reports);
        match S::value_of(nodes[0]) {
            Err(e) => {
                assert(t =~= seq![WalkView::Released(Err(e))]);
            },
            Ok(v) => {
                lemma_walk_from::<S>(items.push(v), rest);
                let t2 = walk_trace::<S>(items.push(v), chain_reports(rest));
                assert(t == seq![WalkView::Continue(items.push(v))] + t2);
                assert forall|i: int| 0 <= i < t.len() - 1 implies #[trigger] t[i] is Continue by {
                    if i > 0 {
                        assert(t[i] == t2[i - 1]);
                    }
                }
                assert(t.last() == t2.last());
                match chain_result::<S>(rest) {
                    Ok(vs) => {
                        assert(items.push(v) + vs =~= items + (seq![v] + vs));
                    },
                    Err(_) => {
                        assert forall|j: int| 0 <= j < t.len() - 1 implies #[trigger] S::value_of(
                            nodes[j],
                        ) is Ok by {
                            if j > 0 {
                                assert(nodes[j] == rest[j - 1]);
                            }
                        }
                        assert(nodes[t.len() - 1] == rest[t2.len() - 1]);
                    },
                }
            },
        }
    }
}

/// A walk over a chain releases the list exactly once, as its last step: it
/// reads node after node, and releases at the end of the chain or at the first
/// node that gives no element, whose failure it returns, reading nothing past
/// it. What it returns is the result of the whole chain.
pub proof fn lemma_walk_releases_once<S: Extract>(nodes: Seq<S::Source>)
    ensures
        ({
            let t = walk_trace::<S>(Seq::empty(), chain_reports(nodes));
            &&& 1 <= t.len() <= nodes.len() + 1
            &&& forall|i: int| 0 <= i < t.len() - 1 ==> #[trigger] t[i] is Continue
            &&& t.last() == WalkView::Released(chain_result::<S>(nodes))
            &&& chain_result::<S>(nodes) is Err ==> {
                &&& t.len() <= nodes.len()
                &&& S::value_of(nodes[t.len() - 1]) is Err
                &&& forall|j: int| 0 <= j < t.len() - 1 ==> #[trigger] S::value_of(nodes[j]) is Ok
            }
        }),
{
    lemma_walk_from::<S>(Seq::empty(), nodes);
    match chain_result::<S>(nodes) {
        Ok(vs) => {
            assert(Seq::<S::Value>::empty() + vs =~= vs);
        },
        Err(_) => {},
    }
}

/// Where every node gives an element, the result of a chain holds those
/// elements in the order of the chain.
pub proof fn lemma_chain_order<S: Extract>(nodes: Seq<S::Source>)
    requires
        forall|i: int| 0 <= i < nodes.len() ==> #[trigger] S::value_of(nodes[i]) is Ok,
    ensures
        chain_result::<S>(nodes) matches Ok(vs) && vs.len() == nodes.len() && forall|i: int|
            0 <= i < nodes.len() ==> S::value_of(#[trigger] nodes[i]) == Ok::<S::Value, CpuPowerError>(
                vs[i],
            ),
    decreases nodes.len(),
{
    if nodes.len() > 0 {
        let rest = nodes.drop_first();
        assert forall|i: int| 0 <= i < rest.len() implies #[trigger] S::value_of(rest[i]) is Ok by {
            assert(rest[i] == nodes[i + 1]);
        }
        lemma_chain_order::<S>(rest);
        assert(S::value_of(nodes[0]) is Ok);
        let vs = chain_result::<S>(nodes)->Ok_0;
        let rs = chain_result::<S>(rest)->Ok_0;
        assert forall|i: int| 0 <= i < nodes.len() implies S::value_of(#[trigger] nodes[i]) == Ok::<
            S::Value,
            CpuPowerError,
        >(vs[i]) by {
            if i > 0 {
                assert(nodes[i] == rest[i - 1]);
                assert(vs[i] == rs[i - 1]);
            }
        }
    }
}

/// The governors a cpu can use: each node holds the name of one.
pub struct AvailableGovernors;

impl Extract for AvailableGovernors {
    /// The governor name copied out of the node, `None` where its text pointer
    /// was null, and the error register read at that point.
    type Source = (Option<Vec<u8>>, i32);

    type Value = Seq<char>;

    type Element = String;

    open spec fn value_of(node: (Option<Vec<u8>>, i32)) -> core::result::Result<
        Seq<char>,
        CpuPowerError,
    > {
        match node.0 {
            None => Err(CpuPowerError::SystemError(node.1)),
            Some(b) => if valid_utf8(b@) {
                Ok(decode_utf8(b@))
            } else {
                Err(CpuPowerError::Utf8Error)
            },
        }
    }

    fn get_value(node: (Option<Vec<u8>>, i32)) -> (r: Result<String>) {
        let (text, errno) = node;
        match text {
            None => Err(CpuPowerError::SystemError(errno)),
            Some(bytes) => match utf8_string(bytes) {
                Some(name) => Ok(name),
                None => Err(CpuPowerError::Utf8Error),
            },
        }
    }
}

/// The frequencies a cpu can run at: each node holds one.
pub struct AvailableFrequencies;

impl Extract for AvailableFrequencies {
    type Source = Frequency;

    type Value = Frequency;

    type Element = Frequency;

    open spec fn value_of(node: Frequency) -> core::result::Result<Frequency, CpuPowerError> {
        Ok(node)
    }

    fn get_value(node: Frequency) -> (r: Result<Frequency>) {
        Ok(node)
    }
}

/// The cpus whose frequency software must set together with this one's: each
/// node holds the id of one.
pub struct AffectedCpus;

impl Extract for AffectedCpus {
    type Source = CpuId;

    type Value = CpuId;

    type Element = Cpu;

    open spec fn value_of(node: CpuId) -> core::result::Result<CpuId, CpuPowerError> {
        Ok(node)
    }

    fn get_value(node: CpuId) -> (r: Result<Cpu>) {
        Ok(Cpu::new(node))
    }
}

/// The cpus that share frequency hardware with this one: each node holds the
/// id of one.
pub struct RelatedCpus;

impl Extract for RelatedCpus {
    type Source = CpuId;

    type Value = CpuId;

    type Element = Cpu;

    open spec fn value_of(node: CpuId) -> core::result::Result<CpuId, CpuPowerError> {
        Ok(node)
    }

    fn get_value(node: CpuId) -> (r: Result<Cpu>) {
        Ok(Cpu::new(node))
    }
}

/// The time a cpu has spent at each frequency: each node holds a frequency and
/// its residency.
pub struct Stats;

impl Extract for Stats {
    /// The frequency and the residency at it.
    type Source = (Frequency, u64);

    type Value = Stat;

    type Element = Stat;

    open spec fn value_of(node: (Frequency, u64)) -> core::result::Result<Stat, CpuPowerError> {
        Ok(Stat { freq: node.0, time_in_state: node.1 })
    }

    fn get_value(node: (Frequency, u64)) -> (r: Result<Stat>) {
        Ok(Stat { freq: node.0, time_in_state: node.1 })
    }
}

} // verus!
