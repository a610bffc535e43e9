//! Structural queries over the MIR of the function being emitted: which
//! statements define a local, what closures capture, and what a body awaits.

use vstd::prelude::*;
use crate::emitter::FunctionEmitter;
use crate::emitter::EmitError;
use crate::mir::{BasicBlock, Constant, OperandKind, Operand, Place, Rvalue, Statement, Terminator};
use crate::types::Type;

verus! {

/// The statements of `blocks`, block after block.
pub open spec fn flat(blocks: Seq<BasicBlock>) -> Seq<Statement>
    decreases blocks.len(),
{
    if blocks.len() == 0 {
        Seq::empty()
    } else {
        flat(blocks.drop_last()) + blocks.last().statements@
    }
}

/// What a scan for the list literal defining a local has seen so far.
pub enum DefScan {
    /// No assignment to the local yet.
    Unseen,
    /// The one assignment so far was this list literal.
    List(Seq<Operand>),
    /// An assignment that is not a list literal, or a second assignment.
    Other,
}

/// One statement of the scan for the defining list literal of `local`.
pub open spec fn def_step(state: DefScan, stmt: Statement, local: usize) -> DefScan {
    match state {
        DefScan::Other => DefScan::Other,
        _ => match stmt {
            Statement::Assign { dest, value } => if dest == local {
                match (state, value) {
                    (DefScan::Unseen, Rvalue::List(items)) => DefScan::List(items@),
                    _ => DefScan::Other,
                }
            } else {
                state
            },
            _ => state,
        },
    }
}

/// The scan for the defining list literal of `local` over `stmts`.
pub open spec fn def_scan(stmts: Seq<Statement>, local: usize) -> DefScan
    decreases stmts.len(),
{
    if stmts.len() == 0 {
        DefScan::Unseen
    } else {
        def_step(def_scan(stmts.drop_last(), local), stmts.last(), local)
    }
}

/// Every item is the `undefined` literal.
pub open spec fn all_undefined(items: Seq<Operand>) -> bool {
    forall|k: int| 0 <= k < items.len() ==> #[trigger] items[k].kind matches OperandKind::Const(
        Constant::Undefined,
    )
}

pub proof fn lemma_flat_step(blocks: Seq<BasicBlock>, k: int)
    requires
        0 <= k < blocks.len(),
    ensures
        flat(blocks.take(k + 1)) == flat(blocks.take(k)) + blocks[k].statements@,
{
    assert(blocks.take(k + 1).drop_last() =~= blocks.take(k));
}

pub proof fn lemma_flat_all(blocks: Seq<BasicBlock>)
    ensures
        flat(blocks.take(blocks.len() as int)) == flat(blocks),
{
    assert(blocks.take(blocks.len() as int) =~= blocks);
}

pub proof fn lemma_append_step(a: Seq<Statement>, b: Seq<Statement>, j: int)
    requires
        0 <= j < b.len(),
    ensures
        (a + b.take(j + 1)).drop_last() == a + b.take(j),
        (a + b.take(j + 1)).last() == b[j],
{
    assert((a + b.take(j + 1)).drop_last() =~= a + b.take(j));
}

pub proof fn lemma_append_ends(a: Seq<Statement>, b: Seq<Statement>)
    ensures
        a + b.take(b.len() as int) == a + b,
        a + b.take(0) == a,
{
    assert(b.take(b.len() as int) =~= b);
    assert(a + b.take(0) =~= a);
}

impl FunctionEmitter {
    /// Whether `operand` reads a local whose single defining statement is a
    /// non-empty list literal of `undefined` constants.
    pub open spec fn all_undefined_spec(&self, operand: Operand) -> bool {
        match operand.local_spec() {
            None => false,
            Some(l) => match def_scan(flat(self.function.blocks@), l) {
                DefScan::List(items) => items.len() > 0 && all_undefined(items),
                _ => false,
            },
        }
    }

    /// Reports whether a list operand was defined by a single array literal,
    /// its only assignment, whose elements are all the `undefined` literal.
    pub fn list_local_all_undefined_constants(&self, operand: &Operand) -> (r: bool)
        ensures
            r == self.all_undefined_spec(*operand),
    {
        let local = match operand.local() {
            Some(l) => l,
            None => {
                return false;
            },
        };
        let ghost blocks = self.function.blocks@;
        let mut other = false;
        let mut found: Option<&Vec<Operand>> = None;
        let mut b: usize = 0;
        while b < self.function.blocks.len()
            invariant
                blocks == self.function.blocks@,
                b <= blocks.len(),
                def_scan(flat(blocks.take(b as int)), local) == (if other {
                    DefScan::Other
                } else {
                    match found {
                        Some(v) => DefScan::List(v@),
                        None => DefScan::Unseen,
                    }
                }),
            decreases blocks.len() - b,
        {
            let stmts = &self.function.blocks[b].statements;
            let ghost prefix = flat(blocks.take(b as int));
            proof {
                lemma_flat_step(blocks, b as int);
                lemma_append_ends(prefix, stmts@);
            }
            let mut s: usize = 0;
            while s < stmts.len()
                invariant
                    blocks == self.function.blocks@,
                    b < blocks.len(),
                    stmts@ == blocks[b as int].statements@,
                    prefix == flat(blocks.take(b as int)),
                    s <= stmts.len(),
                    def_scan(prefix + stmts@.take(s as int), local) == (if other {
                        DefScan::Other
                    } else {
                        match found {
                            Some(v) => DefScan::List(v@),
                            None => DefScan::Unseen,
                        }
                    }),
                decreases stmts.len() - s,
            {
                proof {
                    lemma_append_step(prefix, stmts@, s as int);
                }
                if !other {
                    match &stmts[s] {
                        Statement::Assign { dest, value } => {
                            if *dest == local {
                                match value {
                                    Rvalue::List(items) => {
                                        if found.is_some() {
                                            other = true;
                                        } else {
                                            found = Some(items);
                                        }
                                    },
                                    _ => {
                                        other = true;
                                    },
                                }
                            }
                        },
                        _ => {},
                    }
                }
                s = s + 1;
            }
            proof {
                lemma_append_ends(prefix, stmts@);
                lemma_flat_step(blocks, b as int);
            }
            b = b + 1;
        }
        proof {
            lemma_flat_all(blocks);
        }
        if other {
            return false;
        }
        match found {
            None => false,
            Some(items) => {
                if items.len() == 0 {
                    return false;
                }
                assert(self.all_undefined_spec(*operand) == (items@.len() > 0 && all_undefined(
                    items@,
                )));
                let mut k: usize = 0;
                while k < items.len()
                    invariant
                        self.all_undefined_spec(*operand) == (items@.len() > 0 && all_undefined(
                            items@,
                        )),
                        k <= items.len(),
                        forall|j: int| 0 <= j < k ==> #[trigger] items@[j].kind matches OperandKind::Const(
                            Constant::Undefined,
                        ),
                    decreases items.len() - k,
                {
                    match &items[k].kind {
                        OperandKind::Const(Constant::Undefined) => {},
                        _ => {
                            assert(!(items@[k as int].kind matches OperandKind::Const(
                                Constant::Undefined,
                            )));
                            return false;
                        },
                    }
                    k = k + 1;
                }
                true
            },
        }
    }
}


/// Whether a block awaits: its terminator is an await or one of its
/// statements assigns an awaited value.
pub open spec fn block_awaits(block: BasicBlock) -> bool {
    (block.terminator matches Some(Terminator::Await { .. })) || exists|s: int|
        0 <= s < block.statements.len() && (#[trigger] block.statements@[s] matches Statement::Assign {
            value: Rvalue::Await(_),
            ..
        })
}

/// The source local of a plain copy assignment to `dest`, if `stmt` is one.
pub open spec fn copy_source(stmt: Statement, dest: usize) -> Option<usize> {
    match stmt {
        Statement::Assign { dest: d, value: Rvalue::Use(op) } => if d == dest {
            op.local_spec()
        } else {
            None
        },
        _ => None,
    }
}

/// The source of the last plain copy assignment to `dest` in `stmts`.
pub open spec fn last_copy_source(stmts: Seq<Statement>, dest: usize) -> Option<usize>
    decreases stmts.len(),
{
    if stmts.len() == 0 {
        None
    } else {
        match copy_source(stmts.last(), dest) {
            Some(s) => Some(s),
            None => last_copy_source(stmts.drop_last(), dest),
        }
    }
}

/// What a scan for an assignment after a capture has seen: whether a
/// capturing closure was built, and whether the local was assigned after.
pub struct CaptureScan {
    pub observed: bool,
    pub assigned: bool,
}

impl FunctionEmitter {
    /// Whether closure `id` captures `local`.
    pub open spec fn closure_captures(&self, id: usize, local: usize) -> bool {
        id < self.closures.len() && exists|k: int|
            0 <= k < self.closures@[id as int].captures.len()
                && (#[trigger] self.closures@[id as int].captures@[k]).source_local == local
    }

    /// One statement of the scan for an assignment to `local` after a closure
    /// captured it.
    pub open spec fn capture_step(&self, st: CaptureScan, stmt: Statement, local: usize) -> CaptureScan {
        if st.assigned {
            st
        } else {
            match stmt {
                Statement::Assign { value: Rvalue::Closure { id, .. }, .. } => CaptureScan {
                    observed: st.observed || self.closure_captures(id, local),
                    assigned: false,
                },
                Statement::Assign { dest, .. } => CaptureScan {
                    observed: st.observed,
                    assigned: st.observed && dest == local,
                },
                Statement::AssignPlace { place: Place::Local(c), .. } => CaptureScan {
                    observed: st.observed,
                    assigned: st.observed && c == local,
                },
                _ => st,
            }
        }
    }

    pub open spec fn capture_scan(&self, stmts: Seq<Statement>, local: usize) -> CaptureScan
        decreases stmts.len(),
    {
        if stmts.len() == 0 {
            CaptureScan { observed: false, assigned: false }
        } else {
            self.capture_step(self.capture_scan(stmts.drop_last(), local), stmts.last(), local)
        }
    }

    fn closure_captures_exec(&self, id: usize, local: usize) -> (r: bool)
        ensures
            r == self.closure_captures(id, local),
    {
        if id >= self.closures.len() {
            return false;
        }
        let caps = &self.closures[id].captures;
        let mut k: usize = 0;
        while k < caps.len()
            invariant
                id < self.closures.len(),
                caps@ == self.closures@[id as int].captures@,
                k <= caps.len(),
                forall|j: int| 0 <= j < k ==> (#[trigger] caps@[j]).source_local != local,
            decreases caps.len() - k,
        {
            if caps[k].source_local == local {
                assert(caps@[k as int].source_local == local);
                return true;
            }
            k = k + 1;
        }
        false
    }

    /// Returns whether the body of the function being emitted awaits: a block
    /// whose terminator is an await, or an assignment of an awaited value.
    pub fn closure_body_awaits(&self) -> (r: bool)
        ensures
            r == exists|b: int|
                0 <= b < self.function.blocks.len() && block_awaits(
                    #[trigger] self.function.blocks@[b],
                ),
    {
        let mut b: usize = 0;
        while b < self.function.blocks.len()
            invariant
                b <= self.function.blocks.len(),
                forall|j: int| 0 <= j < b ==> !block_awaits(#[trigger] self.function.blocks@[j]),
            decreases self.function.blocks.len() - b,
        {
            let block = &self.function.blocks[b];
            if let Some(Terminator::Await { .. }) = &block.terminator {
                assert(block_awaits(self.function.blocks@[b as int]));
                return true;
            }
            let mut s: usize = 0;
            while s < block.statements.len()
                invariant
                    b < self.function.blocks.len(),
                    *block == self.function.blocks@[b as int],
                    s <= block.statements.len(),
                    forall|j: int| 0 <= j < s ==> !(#[trigger] block.statements@[j] matches Statement::Assign {
                        value: Rvalue::Await(_),
                        ..
                    }),
                decreases block.statements.len() - s,
            {
                if let Statement::Assign { value: Rvalue::Await(_), .. } = &block.statements[s] {
                    assert(block.statements@[s as int] matches Statement::Assign {
                        value: Rvalue::Await(_),
                        ..
                    });
                    assert(block_awaits(self.function.blocks@[b as int]));
                    return true;
                }
                s = s + 1;
            }
            assert(!block_awaits(self.function.blocks@[b as int]));
            b = b + 1;
        }
        false
    }

    /// Whether every `Return` of the body yields a future, and there is one.
    pub open spec fn yields_future_spec(&self) -> bool {
        &&& exists|b: int|
            0 <= b < self.function.blocks.len() && ((#[trigger] self.function.blocks@[b]).terminator matches Some(
                Terminator::Return(_),
            ))
        &&& forall|b: int|
            0 <= b < self.function.blocks.len() ==> ((#[trigger] self.function.blocks@[b]).terminator matches Some(
                Terminator::Return(op),
            ) ==> self.ty(op.ty) matches Some(Type::Future(_)))
    }

    /// Returns whether the value the body yields is itself a future: every
    /// `Return` carries a future-typed operand, and there is at least one.
    pub fn closure_yields_future_value(&self) -> (r: Result<bool, EmitError>)
        ensures
            r == Ok::<bool, EmitError>(self.yields_future_spec()),
    {
        let mut saw_return = false;
        let mut b: usize = 0;
        while b < self.function.blocks.len()
            invariant
                b <= self.function.blocks.len(),
                saw_return == exists|j: int|
                    0 <= j < b && ((#[trigger] self.function.blocks@[j]).terminator matches Some(
                        Terminator::Return(_),
                    )),
                forall|j: int|
                    0 <= j < b ==> ((#[trigger] self.function.blocks@[j]).terminator matches Some(
                        Terminator::Return(op),
                    ) ==> self.ty(op.ty) matches Some(Type::Future(_))),
            decreases self.function.blocks.len() - b,
        {
            if let Some(Terminator::Return(op)) = &self.function.blocks[b].terminator {
                saw_return = true;
                let is_future = match self.type_at(op.ty) {
                    Some(Type::Future(_)) => true,
                    _ => false,
                };
                if !is_future {
                    assert(!self.yields_future_spec());
                    return Ok(false);
                }
            }
            b = b + 1;
        }
        Ok(saw_return)
    }

    /// One round of following copies: the source of the last plain copy
    /// assignment to `local` in the body.
    pub open spec fn copy_source_of(&self, local: usize) -> Option<usize> {
        last_copy_source(flat(self.function.blocks@), local)
    }

    /// Follows plain copy assignments from `local`, at most `fuel` times.
    pub open spec fn source_local_spec(&self, local: usize, fuel: nat) -> usize
        decreases fuel,
    {
        if fuel == 0 {
            local
        } else {
            match self.copy_source_of(local) {
                None => local,
                Some(s) => if s == local {
                    local
                } else {
                    self.source_local_spec(s, (fuel - 1) as nat)
                },
            }
        }
    }

    fn copy_source_exec(&self, local: usize) -> (r: Option<usize>)
        ensures
            r == self.copy_source_of(local),
    {
        let ghost blocks = self.function.blocks@;
        let mut found: Option<usize> = None;
        let mut b: usize = 0;
        while b < self.function.blocks.len()
            invariant
                blocks == self.function.blocks@,
                b <= blocks.len(),
                last_copy_source(flat(blocks.take(b as int)), local) == found,
            decreases blocks.len() - b,
        {
            let stmts = &self.function.blocks[b].statements;
            let ghost prefix = flat(blocks.take(b as int));
            proof {
                lemma_flat_step(blocks, b as int);
                lemma_append_ends(prefix, stmts@);
            }
            let mut s: usize = 0;
            while s < stmts.len()
                invariant
                    blocks == self.function.blocks@,
                    b < blocks.len(),
                    stmts@ == blocks[b as int].statements@,
                    prefix == flat(blocks.take(b as int)),
                    s <= stmts.len(),
                    last_copy_source(prefix + stmts@.take(s as int), local) == found,
                decreases stmts.len() - s,
            {
                proof {
                    lemma_append_step(prefix, stmts@, s as int);
                }
                if let Statement::Assign { dest, value: Rvalue::Use(op) } = &stmts[s] {
                    if *dest == local {
                        if let Some(src) = op.local() {
                            found = Some(src);
                        }
                    }
                }
                s = s + 1;
            }
            proof {
                lemma_append_ends(prefix, stmts@);
                lemma_flat_step(blocks, b as int);
            }
            b = b + 1;
        }
        proof {
            lemma_flat_all(blocks);
        }
        found
    }

    /// Resolves a local to the local it aliases, following plain copy
    /// assignments at most eight times.
    pub fn closure_source_local(&self, local: usize) -> (r: usize)
        ensures
            r == self.source_local_spec(local, 8),
    {
        let mut current = local;
        let mut round: u8 = 0;
        while round < 8
            invariant
                round <= 8,
                self.source_local_spec(current, (8 - round) as nat) == self.source_local_spec(
                    local,
                    8,
                ),
            decreases 8 - round,
        {
            match self.copy_source_exec(current) {
                None => {
                    return current;
                },
                Some(src) => {
                    if src == current {
                        return current;
                    }
                    current = src;
                },
            }
            round = round + 1;
        }
        current
    }

    /// Returns whether a closure capturing `local` is built before `local`
    /// is assigned.
    pub fn local_is_assigned_after_capture(&self, local: usize) -> (r: bool)
        ensures
            r == self.capture_scan(flat(self.function.blocks@), local).assigned,
    {
        let ghost blocks = self.function.blocks@;
        let mut observed = false;
        let mut assigned = false;
        let mut b: usize = 0;
        while b < self.function.blocks.len()
            invariant
                blocks == self.function.blocks@,
                b <= blocks.len(),
                self.capture_scan(flat(blocks.take(b as int)), local) == (CaptureScan {
                    observed,
                    assigned,
                }),
            decreases blocks.len() - b,
        {
            let stmts = &self.function.blocks[b].statements;
            let ghost prefix = flat(blocks.take(b as int));
            proof {
                lemma_flat_step(blocks, b as int);
                lemma_append_ends(prefix, stmts@);
            }
            let mut s: usize = 0;
            while s < stmts.len()
                invariant
                    blocks == self.function.blocks@,
                    b < blocks.len(),
                    stmts@ == blocks[b as int].statements@,
                    prefix == flat(blocks.take(b as int)),
                    s <= stmts.len(),
                    self.capture_scan(prefix + stmts@.take(s as int), local) == (CaptureScan {
                        observed,
                        assigned,
                    }),
                decreases stmts.len() - s,
            {
                proof {
                    lemma_append_step(prefix, stmts@, s as int);
                }
                if !assigned {
                    match &stmts[s] {
                        Statement::Assign { value: Rvalue::Closure { id, .. }, .. } => {
                            observed = observed || self.closure_captures_exec(*id, local);
                        },
                        Statement::Assign { dest, .. } => {
                            assigned = observed && *dest == local;
                        },
                        Statement::AssignPlace { place: Place::Local(c), .. } => {
                            assigned = observed && *c == local;
                        },
                        _ => {},
                    }
                }
                s = s + 1;
            }
            proof {
                lemma_append_ends(prefix, stmts@);
                lemma_flat_step(blocks, b as int);
            }
            b = b + 1;
        }
        proof {
            lemma_flat_all(blocks);
        }
        assigned
    }
}

} // verus!
