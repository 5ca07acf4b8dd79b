//! The builder of a compare-and-branch transaction and the order it keeps:
//! conditions first, then the operations of the success branch, then those of
//! the failure branch.

use vstd::prelude::*;
use crate::error::Error;
use crate::options::txn::compare::{Compare, CompareView};
use crate::options::txn::op::{RequestOp, RequestOpView};
use crate::wire::{PbCompare, PbRequestOp, TxnRequest, TxnRequestView};

verus! {

/// How far the assembly of a transaction has come.
#[derive(Debug, Clone, Copy, PartialEq, Eq, Structural)]
pub enum TxnPhase {
    /// Only conditions have been added, if anything.
    WhenOnly,
    /// Success operations have been added, and no failure operations yet.
    AfterThen,
    /// Failure operations have been added.
    AfterOtherwise,
}

/// What a `DefaultTxn` holds.
pub struct TxnView {
    pub when_compares: Seq<CompareView>,
    pub then_ops: Seq<RequestOpView>,
    pub otherwise_ops: Seq<RequestOpView>,
    pub seen_then: bool,
    pub seen_otherwise: bool,
}

impl TxnView {
    /// The phase the flags stand for.
    pub open spec fn phase(self) -> TxnPhase {
        if self.seen_otherwise {
            TxnPhase::AfterOtherwise
        } else if self.seen_then {
            TxnPhase::AfterThen
        } else {
            TxnPhase::WhenOnly
        }
    }

    /// A branch holds operations only once its phase has been entered.
    pub open spec fn well_formed(self) -> bool {
        (!self.seen_then ==> self.then_ops.len() == 0) && (!self.seen_otherwise
            ==> self.otherwise_ops.len() == 0)
    }

    /// Whether conditions may still be added: only while no operation of
    /// either branch has been supplied.
    pub open spec fn when_allowed(self) -> bool {
        !self.seen_then && !self.seen_otherwise
    }

    /// Whether success operations may still be added: only while no failure
    /// operation has been supplied.
    pub open spec fn then_allowed(self) -> bool {
        !self.seen_otherwise
    }

    /// The transaction after conditions were offered: added where allowed,
    /// else the transaction unchanged.
    pub open spec fn after_when(self, compares: Seq<CompareView>) -> TxnView {
        if self.when_allowed() {
            TxnView { when_compares: self.when_compares + compares, ..self }
        } else {
            self
        }
    }

    /// The transaction after success operations were offered: added where
    /// allowed, else the transaction unchanged.
    pub open spec fn after_then(self, ops: Seq<RequestOpView>) -> TxnView {
        if self.then_allowed() {
            TxnView { then_ops: self.then_ops + ops, seen_then: true, ..self }
        } else {
            self
        }
    }

    /// The transaction after failure operations were offered: always added.
    pub open spec fn after_otherwise(self, ops: Seq<RequestOpView>) -> TxnView {
        TxnView { otherwise_ops: self.otherwise_ops + ops, seen_otherwise: true, ..self }
    }

    /// The transaction request: the conditions and the operations of both
    /// branches, each as its wire message and in the order it was added.
    pub open spec fn to_request(self) -> TxnRequestView {
        TxnRequestView {
            compare: self.when_compares.map_values(|c: CompareView| c.into_pb()),
            success: self.then_ops.map_values(|o: RequestOpView| o.into_pb()),
            failure: self.otherwise_ops.map_values(|o: RequestOpView| o.into_pb()),
        }
    }
}

/// The views of a list of conditions.
pub open spec fn compare_views(compares: Seq<Compare>) -> Seq<CompareView> {
    compares.map_values(|c: Compare| c@)
}

/// The views of a list of operations.
pub open spec fn op_views(ops: Seq<RequestOp>) -> Seq<RequestOpView> {
    ops.map_values(|o: RequestOp| o@)
}

/// A transaction under assembly.
#[derive(Debug)]
pub struct DefaultTxn {
    when_compares: Vec<Compare>,
    then_ops: Vec<RequestOp>,
    otherwise_ops: Vec<RequestOp>,
    seen_then: bool,
    seen_otherwise: bool,
}

impl View for DefaultTxn {
    type V = TxnView;

    closed spec fn view(&self) -> TxnView {
        TxnView {
            when_compares: compare_views(self.when_compares@),
            then_ops: op_views(self.then_ops@),
            otherwise_ops: op_views(self.otherwise_ops@),
            seen_then: self.seen_then,
            seen_otherwise: self.seen_otherwise,
        }
    }
}

fn append_compares(list: &mut Vec<Compare>, more: Vec<Compare>)
    ensures
        compare_views(final(list)@) == compare_views(old(list)@) + compare_views(more@),
{
    let mut more = more;
    let ghost before = list@;
    let ghost added = more@;
    list.append(&mut more);
    assert(compare_views(list@) =~= compare_views(before) + compare_views(added));
}

fn append_ops(list: &mut Vec<RequestOp>, more: Vec<RequestOp>)
    ensures
        op_views(final(list)@) == op_views(old(list)@) + op_views(more@),
{
    let mut more = more;
    let ghost before = list@;
    let ghost added = more@;
    list.append(&mut more);
    assert(op_views(list@) =~= op_views(before) + op_views(added));
}

fn compile_ops(ops: &Vec<RequestOp>) -> (r: Vec<PbRequestOp>)
    ensures
        r@.map_values(|o: PbRequestOp| o@) == op_views(ops@).map_values(
            |o: RequestOpView| o.into_pb(),
        ),
{
    let mut out: Vec<PbRequestOp> = Vec::new();
    let mut i: usize = 0;
    while i < ops.len()
        invariant
            i <= ops@.len(),
            out@.len() == i,
            forall|j: int| 0 <= j < i ==> (#[trigger] out@[j])@ == ops@[j]@.into_pb(),
        decreases ops@.len() - i,
    {
        let op = ops[i].clone();
        out.push(op.into_pb());
        i = i + 1;
    }
    assert(out@.map_values(|o: PbRequestOp| o@) =~= op_views(ops@).map_values(
        |o: RequestOpView| o.into_pb(),
    ));
    out
}

impl DefaultTxn {
    /// An empty transaction, in the first phase.
    pub fn new() -> (r: Self)
        ensures
            r@ == (TxnView {
                when_compares: Seq::<CompareView>::empty(),
                then_ops: Seq::<RequestOpView>::empty(),
                otherwise_ops: Seq::<RequestOpView>::empty(),
                seen_then: false,
                seen_otherwise: false,
            }),
            r@.well_formed(),
    {
        let t = DefaultTxn {
            when_compares: Vec::new(),
            then_ops: Vec::new(),
            otherwise_ops: Vec::new(),
            seen_then: false,
            seen_otherwise: false,
        };
        assert(t@.when_compares =~= Seq::<CompareView>::empty());
        assert(t@.then_ops =~= Seq::<RequestOpView>::empty());
        assert(t@.otherwise_ops =~= Seq::<RequestOpView>::empty());
        t
    }

    /// Adds conditions behind those already added. Once operations of either
    /// branch have been supplied this is refused, and the transaction stays as
    /// it was.
    pub fn when(&mut self, compares: Vec<Compare>) -> (r: Result<(), Error>)
        ensures
            final(self)@ == old(self)@.after_when(compare_views(compares@)),
            r is Ok <==> old(self)@.when_allowed(),
            old(self)@.seen_then ==> (r matches Err(Error::InvalidTxnSequence(reason)) && reason@
                == "Cannot add comparisons after 'then' clause!"@),
            !old(self)@.seen_then && old(self)@.seen_otherwise ==> (r matches Err(
                Error::InvalidTxnSequence(reason),
            ) && reason@ == "Cannot add comparisons after 'otherwise' clause!"@),
    {
        if self.seen_then {
            return Err(
                Error::InvalidTxnSequence("Cannot add comparisons after 'then' clause!".to_owned()),
            );
        }
        if self.seen_otherwise {
            return Err(
                Error::InvalidTxnSequence(
                    "Cannot add comparisons after 'otherwise' clause!".to_owned(),
                ),
            );
        }
        append_compares(&mut self.when_compares, compares);
        Ok(())
    }

    /// Adds operations to the success branch, behind those already added, and
    /// enters the second phase. Once failure operations have been supplied
    /// this is refused, and the transaction stays as it was.
    pub fn and_then(&mut self, ops: Vec<RequestOp>) -> (r: Result<(), Error>)
        ensures
            final(self)@ == old(self)@.after_then(op_views(ops@)),
            r is Ok <==> old(self)@.then_allowed(),
            !old(self)@.then_allowed() ==> (r matches Err(Error::InvalidTxnSequence(reason))
                && reason@ == "Cannot add 'then' clause after 'otherwise' clause!"@),
    {
        if self.seen_otherwise {
            Err(
                Error::InvalidTxnSequence(
                    "Cannot add 'then' clause after 'otherwise' clause!".to_owned(),
                ),
            )
        } else {
            self.seen_then = true;
            append_ops(&mut self.then_ops, ops);
            Ok(())
        }
    }

    /// Adds operations to the failure branch, behind those already added, and
    /// enters the last phase. This is never refused.
    pub fn otherwise(&mut self, ops: Vec<RequestOp>) -> (r: Result<(), Error>)
        ensures
            final(self)@ == old(self)@.after_otherwise(op_views(ops@)),
            r is Ok,
    {
        self.seen_otherwise = true;
        append_ops(&mut self.otherwise_ops, ops);
        Ok(())
    }

    /// The transaction request to submit. The transaction itself is left as
    /// it is.
    pub fn to_request(&self) -> (r: TxnRequest)
        ensures
            r@ == self@.to_request(),
    {
        let mut compare: Vec<PbCompare> = Vec::new();
        let mut i: usize = 0;
        while i < self.when_compares.len()
            invariant
                i <= self.when_compares@.len(),
                compare@.len() == i,
                forall|j: int|
                    0 <= j < i ==> (#[trigger] compare@[j])@ == self.when_compares@[j]@.into_pb(),
            decreases self.when_compares@.len() - i,
        {
            let c = self.when_compares[i].clone();
            compare.push(c.into_pb());
            i = i + 1;
        }
        assert(compare@.map_values(|c: PbCompare| c@) =~= compare_views(
            self.when_compares@,
        ).map_values(|c: CompareView| c.into_pb()));
        let success = compile_ops(&self.then_ops);
        let failure = compile_ops(&self.otherwise_ops);
        TxnRequest { compare, success, failure }
    }
}

/// Once success operations have been offered, whether they were taken or
/// refused, conditions are refused: offering them leaves every list of the
/// transaction as it was. And no later step lifts that refusal.
pub proof fn lemma_when_refused_after_then(
    t: TxnView,
    ops: Seq<RequestOpView>,
    compares: Seq<CompareView>,
)
    ensures
        !t.after_then(ops).when_allowed(),
        t.after_then(ops).after_when(compares) == t.after_then(ops),
        !t.when_allowed() ==> !t.after_when(compares).when_allowed() && !t.after_then(
            ops,
        ).when_allowed() && !t.after_otherwise(ops).when_allowed(),
{
}

/// The phase of a transaction never goes back: once failure operations have
/// been offered success operations are refused for good, and a refused step
/// changes nothing.
pub proof fn lemma_phase_only_advances(
    t: TxnView,
    ops: Seq<RequestOpView>,
    compares: Seq<CompareView>,
)
    ensures
        !t.after_otherwise(ops).then_allowed(),
        !t.then_allowed() ==> t.after_then(ops) == t && !t.after_when(compares).then_allowed()
            && !t.after_otherwise(ops).then_allowed(),
        !t.when_allowed() ==> t.after_when(compares) == t,
        t.after_when(compares).phase() == t.phase(),
        t.after_then(ops).phase() != TxnPhase::WhenOnly,
        t.after_otherwise(ops).phase() == TxnPhase::AfterOtherwise,
        t.well_formed() ==> t.after_when(compares).well_formed() && t.after_then(
            ops,
        ).well_formed() && t.after_otherwise(ops).well_formed(),
{
}

/// Transactions that hold the same conditions and operations compile to equal
/// requests, whatever way they were assembled.
pub proof fn lemma_to_request_deterministic(a: DefaultTxn, b: DefaultTxn)
    requires
        a@.when_compares == b@.when_compares,
        a@.then_ops == b@.then_ops,
        a@.otherwise_ops == b@.otherwise_ops,
    ensures
        a@.to_request() == b@.to_request(),
{
}

} // verus!
