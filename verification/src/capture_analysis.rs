//! Ownership analysis of parameters and closure captures: which operands are
//! copies of a local, which parameters need the mutable-reference ABI, and
//! which captured bindings need storage shared with a closure.

use vstd::prelude::*;
use crate::emitter::FunctionEmitter;
use crate::graph::{
    closed, extends, lemma_closed_unreachable, lemma_extends_contains, lemma_reaches_prepend,
    lemma_reaches_self, reaches,
};
use crate::mir::{
    BasicBlock, Callee, Capture, CaptureMode, LocalDecl, MirClosure, MirFunction, Operand,
    OperandKind, Place, Rvalue, Statement, Terminator,
};
use crate::types::{FunctionType, Type};
use crate::mir_queries::{copy_source, flat};

verus! {

/// `u` is assigned a plain copy of `w` somewhere in `blocks`.
pub open spec fn use_edge(blocks: Seq<BasicBlock>, u: usize, w: usize) -> bool {
    exists|b: int, s: int|
        0 <= b < blocks.len() && 0 <= s < blocks[b].statements.len() && #[trigger] copy_source(
            blocks[b].statements@[s],
            u,
        ) == Some(w)
}

/// The copy graph of `blocks`: an edge from each local to every local it is
/// assigned a plain copy of.
pub open spec fn copy_graph(blocks: Seq<BasicBlock>) -> spec_fn(usize, usize) -> bool {
    |u: usize, w: usize| use_edge(blocks, u, w)
}

/// `operand` reads `origin`, or a local reached from it through a chain of
/// plain copies, without passing through a local of `blocked`.
pub open spec fn originates_spec(
    blocks: Seq<BasicBlock>,
    operand: Operand,
    origin: usize,
    blocked: Set<usize>,
) -> bool {
    match operand.local_spec() {
        Some(l) => reaches(copy_graph(blocks), l, origin, blocked),
        None => false,
    }
}

proof fn lemma_extends_contains_all(longer: Seq<usize>, shorter: Seq<usize>)
    requires
        extends(longer, shorter),
    ensures
        forall|x: usize| shorter.contains(x) ==> longer.contains(x),
{
    assert forall|x: usize| shorter.contains(x) implies longer.contains(x) by {
        lemma_extends_contains(longer, shorter, x);
    }
}

/// Returns whether `x` is in `v`.
pub fn seq_has(v: &Vec<usize>, x: usize) -> (r: bool)
    ensures
        r == v@.contains(x),
{
    let mut i: usize = 0;
    while i < v.len()
        invariant
            i <= v.len(),
            forall|k: int| 0 <= k < i ==> v@[k] != x,
        decreases v.len() - i,
    {
        if v[i] == x {
            return true;
        }
        i = i + 1;
    }
    false
}

/// The depth-first search behind `operand_originates_from_local_in_blocks`.
/// `stack` holds the locals whose search is under way, `blocked` the locals
/// seen before the search began.
fn originates_dfs(
    blocks: &Vec<BasicBlock>,
    operand: &Operand,
    origin: usize,
    seen: &mut Vec<usize>,
    Ghost(stack): Ghost<Set<usize>>,
    Ghost(blocked): Ghost<Set<usize>>,
) -> (r: bool)
    requires
        forall|x: usize| stack.contains(x) ==> old(seen)@.contains(x),
        forall|x: usize| blocked.contains(x) ==> old(seen)@.contains(x),
        closed(copy_graph(blocks@), old(seen)@, stack, blocked, origin),
    ensures
        extends(final(seen)@, old(seen)@),
        r ==> originates_spec(blocks@, *operand, origin, blocked),
        !r ==> closed(copy_graph(blocks@), final(seen)@, stack, blocked, origin),
        !r ==> (operand.local_spec() matches Some(l) ==> final(seen)@.contains(l) && l != origin),
    decreases usize::MAX - old(seen)@.len(),
{
    let ghost graph = copy_graph(blocks@);
    let local = match operand.local() {
        Some(l) => l,
        None => {
            return false;
        },
    };
    if local == origin {
        proof {
            lemma_reaches_self(graph, local, blocked);
        }
        return true;
    }
    if seq_has(seen, local) {
        return false;
    }
    let ghost entry = seen@;
    let ghost inner = stack.insert(local);
    seen.push(local);
    proof {
        lemma_extends_contains_all(seen@, entry);
        assert(seen@.contains(local)) by {
            assert(seen@[entry.len() as int] == local);
        }
        assert forall|u: usize, w: usize|
            #![trigger graph(u, w), seen@.contains(u)]
            seen@.contains(u) && !inner.contains(u) && !blocked.contains(u) && graph(
                u,
                w,
            ) implies seen@.contains(w) && w != origin by {
            if u != local {
                assert(entry.contains(u)) by {
                    let i = choose|i: int| 0 <= i < seen@.len() && seen@[i] == u;
                    assert(i < entry.len());
                    assert(entry[i] == u);
                }
            }
        }
    }
    let mut b: usize = 0;
    while b < blocks.len()
        invariant
            b <= blocks.len(),
            graph == copy_graph(blocks@),
            inner == stack.insert(local),
            entry == old(seen)@,
            extends(seen@, entry.push(local)),
            extends(entry.push(local), entry),
            !entry.contains(local),
            forall|x: usize| blocked.contains(x) ==> entry.contains(x),
            forall|x: usize| stack.contains(x) ==> entry.contains(x),
            local != origin,
            operand.local_spec() == Some(local),
            closed(graph, seen@, inner, blocked, origin),
            forall|b2: int, s2: int|
                0 <= b2 < b && 0 <= s2 < blocks@[b2].statements.len() ==> (#[trigger] copy_source(
                    blocks@[b2].statements@[s2],
                    local,
                ) matches Some(w) ==> seen@.contains(w) && w != origin),
        decreases blocks.len() - b,
    {
        let mut s: usize = 0;
        while s < blocks[b].statements.len()
            invariant
                b < blocks.len(),
                s <= blocks@[b as int].statements.len(),
                graph == copy_graph(blocks@),
                inner == stack.insert(local),
                entry == old(seen)@,
                extends(seen@, entry.push(local)),
                extends(entry.push(local), entry),
                !entry.contains(local),
                forall|x: usize| blocked.contains(x) ==> entry.contains(x),
                forall|x: usize| stack.contains(x) ==> entry.contains(x),
                local != origin,
                operand.local_spec() == Some(local),
                closed(graph, seen@, inner, blocked, origin),
                forall|b2: int, s2: int|
                    0 <= b2 < blocks.len() && 0 <= s2 < blocks@[b2].statements.len() && (b2 < b
                        || (b2 == b && s2 < s)) ==> (#[trigger] copy_source(
                        blocks@[b2].statements@[s2],
                        local,
                    ) matches Some(w) ==> seen@.contains(w) && w != origin),
            decreases blocks@[b as int].statements.len() - s,
        {
            if let Statement::Assign { dest, value: Rvalue::Use(source) } = &blocks[b].statements[s] {
                if *dest == local {
                    let ghost before = seen@;
                    let _bound = seen.len();
                    proof {
                        lemma_extends_contains_all(seen@, entry.push(local));
                        lemma_extends_contains_all(entry.push(local), entry);
                        assert(seen@.contains(local)) by {
                            assert(entry.push(local)[entry.len() as int] == local);
                            lemma_extends_contains(seen@, entry.push(local), local);
                        }
                    }
                    let found = originates_dfs(
                        blocks,
                        source,
                        origin,
                        seen,
                        Ghost(inner),
                        Ghost(blocked),
                    );
                    if found {
                        proof {
                            let w = source.local_spec()->0;
                            assert(copy_source(blocks@[b as int].statements@[s as int], local) == Some(w));
                            assert(graph(local, w));
                            assert(!blocked.contains(local));
                            lemma_reaches_prepend(graph, local, w, origin, blocked);
                            crate::graph::lemma_extends_trans(seen@, before, entry.push(local));
                            crate::graph::lemma_extends_trans(seen@, entry.push(local), entry);
                        }
                        return true;
                    }
                    proof {
                        lemma_extends_contains_all(seen@, before);
                        crate::graph::lemma_extends_trans(seen@, before, entry.push(local));
                    }
                }
            }
            s = s + 1;
        }
        b = b + 1;
    }
    proof {
        lemma_extends_contains_all(seen@, entry.push(local));
        assert(seen@.contains(local)) by {
            assert(entry.push(local)[entry.len() as int] == local);
            lemma_extends_contains(seen@, entry.push(local), local);
        }
        assert forall|u: usize, w: usize|
            #![trigger graph(u, w), seen@.contains(u)]
            seen@.contains(u) && !stack.contains(u) && !blocked.contains(u) && graph(
                u,
                w,
            ) implies seen@.contains(w) && w != origin by {
            if u == local {
                let (b2, s2) = choose|b2: int, s2: int|
                    0 <= b2 < blocks@.len() && 0 <= s2 < blocks@[b2].statements.len()
                        && #[trigger] copy_source(blocks@[b2].statements@[s2], u) == Some(w);
                assert(copy_source(blocks@[b2].statements@[s2], local) == Some(w));
            }
        }
        crate::graph::lemma_extends_trans(seen@, entry.push(local), entry);
    }
    false
}

impl FunctionEmitter {
    /// Returns whether `operand` reads `origin` itself or a local that is a
    /// chain of plain copies of it in `blocks`, without passing through a
    /// local already in `seen`; `seen` comes back as it was given.
    pub fn operand_originates_from_local_in_blocks(
        blocks: &Vec<BasicBlock>,
        operand: &Operand,
        origin: usize,
        seen: &mut Vec<usize>,
    ) -> (r: bool)
        ensures
            r == originates_spec(blocks@, *operand, origin, old(seen)@.to_set()),
            final(seen)@ == old(seen)@,
    {
        let len = seen.len();
        let ghost blocked = seen@.to_set();
        let ghost graph = copy_graph(blocks@);
        proof {
            assert forall|x: usize| blocked.contains(x) implies seen@.contains(x) by {}
            assert forall|u: usize, w: usize|
                #![trigger graph(u, w), seen@.contains(u)]
                seen@.contains(u) && !Set::<usize>::empty().contains(u) && !blocked.contains(u)
                    && graph(u, w) implies seen@.contains(w) && w != origin by {}
        }
        let ghost start = seen@;
        let r = originates_dfs(blocks, operand, origin, seen, Ghost(Set::empty()), Ghost(blocked));
        proof {
            if !r {
                if let Some(l) = operand.local_spec() {
                    lemma_closed_unreachable(graph, seen@, blocked, l, origin);
                }
            }
            assert(seen@.subrange(0, len as int) =~= start);
        }
        seen.truncate(len);
        r
    }

    /// Returns whether `operand` is the local `origin` of `function` or a
    /// chain of plain copies of it.
    pub fn operand_originates_from_local(
        function: &MirFunction,
        operand: &Operand,
        origin: usize,
        seen: &mut Vec<usize>,
    ) -> (r: bool)
        ensures
            r == originates_spec(function.blocks@, *operand, origin, old(seen)@.to_set()),
            final(seen)@ == old(seen)@,
    {
        Self::operand_originates_from_local_in_blocks(&function.blocks, operand, origin, seen)
    }
}


/// The first field of `fields` named `field`, by its type.
pub open spec fn field_type_in(fields: Seq<(usize, usize)>, field: usize) -> Option<usize>
    decreases fields.len(),
{
    if fields.len() == 0 {
        None
    } else if fields[0].0 == field {
        Some(fields[0].1)
    } else {
        field_type_in(fields.drop_first(), field)
    }
}

/// `value` mutates `local` in place.
pub open spec fn rvalue_mutates_spec(value: Rvalue, local: usize) -> bool {
    match value {
        Rvalue::InPlace { mutates, .. } => mutates@.contains(local),
        _ => false,
    }
}

/// `value` borrows `local` mutably.
pub open spec fn rvalue_borrows_mut_spec(value: Rvalue, local: usize) -> bool {
    match value {
        Rvalue::InPlace { borrows_mutably, .. } => borrows_mutably@.contains(local),
        _ => false,
    }
}

/// Some argument in a mutable parameter slot of `ft` is a copy of `local`
/// in `blocks`.
pub open spec fn mutable_slot_forward(
    blocks: Seq<BasicBlock>,
    ft: FunctionType,
    args: Seq<Operand>,
    local: usize,
) -> bool {
    exists|i: int|
        0 <= i < args.len() && ft.mutable_params@.contains(i as usize) && #[trigger] originates_spec(
            blocks,
            args[i],
            local,
            Set::empty(),
        )
}

/// Returns whether `value` mutates `local` in place.
pub fn rvalue_mutates_local(value: &Rvalue, local: usize) -> (r: bool)
    ensures
        r == rvalue_mutates_spec(*value, local),
{
    match value {
        Rvalue::InPlace { mutates, .. } => seq_has(mutates, local),
        _ => false,
    }
}

/// Returns whether `value` borrows `local` mutably.
pub fn rvalue_borrows_local_mutably(value: &Rvalue, local: usize) -> (r: bool)
    ensures
        r == rvalue_borrows_mut_spec(*value, local),
{
    match value {
        Rvalue::InPlace { borrows_mutably, .. } => seq_has(borrows_mutably, local),
        _ => false,
    }
}

pub(crate) fn field_type_find(fields: &Vec<(usize, usize)>, field: usize) -> (r: Option<usize>)
    ensures
        r == field_type_in(fields@, field),
{
    let mut i: usize = 0;
    assert(fields@.skip(0) =~= fields@);
    while i < fields.len()
        invariant
            i <= fields.len(),
            field_type_in(fields@, field) == field_type_in(fields@.skip(i as int), field),
        decreases fields.len() - i,
    {
        assert(fields@.skip(i as int).drop_first() =~= fields@.skip(i + 1));
        if fields[i].0 == field {
            return Some(fields[i].1);
        }
        i = i + 1;
    }
    None
}

fn pair_has(v: &Vec<(usize, usize)>, x: (usize, usize)) -> (r: bool)
    ensures
        r == v@.contains(x),
{
    let mut i: usize = 0;
    while i < v.len()
        invariant
            i <= v.len(),
            forall|k: int| 0 <= k < i ==> v@[k] != x,
        decreases v.len() - i,
    {
        if v[i].0 == x.0 && v[i].1 == x.1 {
            assert(v@[i as int] == x);
            return true;
        }
        i = i + 1;
    }
    false
}

impl FunctionEmitter {
    /// The type of field `field` of the structural record type `ty`.
    pub open spec fn record_field_type(&self, ty: usize, field: usize) -> Option<usize> {
        match self.fact(ty) {
            Some(f) => field_type_in(f.record_fields@, field),
            None => None,
        }
    }

    /// The function type of a callee operand read from `locals`: a local, or
    /// a field of a structural record local.
    pub open spec fn callee_fn_spec(&self, locals: Seq<LocalDecl>, op: Operand) -> Option<FunctionType> {
        let ty = match op.kind {
            OperandKind::Copy(Place::Local(l)) | OperandKind::Move(Place::Local(l)) => if l
                < locals.len() {
                Some(locals[l as int].ty)
            } else {
                None
            },
            OperandKind::Copy(Place::Field { base, field }) | OperandKind::Move(
                Place::Field { base, field },
            ) => if base < locals.len() {
                self.record_field_type(locals[base as int].ty, field)
            } else {
                None
            },
            _ => None,
        };
        match ty {
            Some(t) => match self.ty(t) {
                Some(Type::Function(f)) => Some(f),
                _ => None,
            },
            None => None,
        }
    }

    /// `value` forwards a copy of `local` into a mutable parameter slot of a
    /// called function value of `f`.
    pub open spec fn rvalue_forwards_spec(&self, f: MirFunction, value: Rvalue, local: usize) -> bool {
        match value {
            Rvalue::ClosureCall { callee, args } => match self.callee_fn_spec(f.locals@, callee) {
                Some(ft) => mutable_slot_forward(f.blocks@, ft, args@, local),
                None => false,
            },
            _ => false,
        }
    }

    /// A statement of `f` that writes through the parameter `local`.
    pub open spec fn stmt_needs_ref(&self, f: MirFunction, stmt: Statement, local: usize) -> bool {
        match stmt {
            Statement::AssignPlace { place: Place::Field { base, .. }, .. } => base == local,
            Statement::AssignPlace { place: Place::Index { base, .. }, .. } => base == local,
            Statement::Assign { value, .. } => rvalue_mutates_spec(value, local)
                || self.rvalue_forwards_spec(f, value, local),
            _ => false,
        }
    }

    /// Parameter `local` of `f` is mutated in place, directly or through a
    /// callee, so it must be passed by mutable reference; `seen` holds the
    /// (function, parameter) questions already under way, which count as
    /// no.
    pub open spec fn needs_ref_spec(&self, f: MirFunction, local: usize, seen: Seq<(usize, usize)>) -> bool
        decreases usize::MAX - seen.len(), 0nat, 0nat,
    {
        if !f.params@.contains(local) {
            false
        } else if !(local < f.locals.len() && self.shared_mutation_spec(f.locals@[local as int].ty)) {
            false
        } else if seen.contains((f.id, local)) {
            false
        } else if seen.len() >= usize::MAX {
            false
        } else {
            self.blocks_need_ref(f, local, seen.push((f.id, local)), f.blocks.len() as nat)
        }
    }

    /// One of the first `n` blocks of `f` writes through `local`.
    pub open spec fn blocks_need_ref(&self, f: MirFunction, local: usize, seen: Seq<(usize, usize)>, n: nat) -> bool
        decreases usize::MAX - seen.len(), 3nat, n,
    {
        if n == 0 || n > f.blocks.len() {
            false
        } else {
            self.blocks_need_ref(f, local, seen, (n - 1) as nat) || self.block_needs_ref(
                f,
                local,
                seen,
                n - 1,
            )
        }
    }

    /// Block `b` of `f` writes through `local`: a statement does, or its call
    /// forwards a copy of `local` where the callee mutates it.
    pub open spec fn block_needs_ref(&self, f: MirFunction, local: usize, seen: Seq<(usize, usize)>, b: int) -> bool
        decreases usize::MAX - seen.len(), 2nat, 0nat,
    {
        if !(0 <= b < f.blocks.len()) {
            false
        } else {
            let block = f.blocks@[b];
            (exists|k: int|
                0 <= k < block.statements.len() && #[trigger] self.stmt_needs_ref(
                    f,
                    block.statements@[k],
                    local,
                )) || match block.terminator {
                Some(Terminator::Call { callee, args, .. }) => match callee {
                    Callee::Static(fid, _) => self.static_args_need_ref(
                        f,
                        local,
                        seen,
                        fid,
                        args@,
                        args.len() as nat,
                    ),
                    Callee::Indirect(op, _) => match self.callee_fn_spec(f.locals@, op) {
                        Some(ft) => mutable_slot_forward(f.blocks@, ft, args@, local),
                        None => false,
                    },
                    Callee::Builtin(_) => false,
                },
                _ => false,
            }
        }
    }

    /// One of the first `n` arguments of a static call to function `fid` is a
    /// copy of `local` passed to a parameter that needs a mutable reference.
    pub open spec fn static_args_need_ref(
        &self,
        f: MirFunction,
        local: usize,
        seen: Seq<(usize, usize)>,
        fid: usize,
        args: Seq<Operand>,
        n: nat,
    ) -> bool
        decreases usize::MAX - seen.len(), 1nat, n,
    {
        if n == 0 || n > args.len() {
            false
        } else {
            self.static_args_need_ref(f, local, seen, fid, args, (n - 1) as nat) || (originates_spec(
                f.blocks@,
                args[n - 1],
                local,
                Set::empty(),
            ) && fid < self.functions.len() && n - 1 < self.functions@[fid as int].params.len()
                && self.needs_ref_spec(
                self.functions@[fid as int],
                self.functions@[fid as int].params@[n - 1],
                seen,
            ))
        }
    }

    /// The function type of a callee operand read from `locals`.
    pub fn callee_function_type<'a>(&'a self, locals: &Vec<LocalDecl>, operand: &Operand) -> (r:
        Option<&'a FunctionType>)
        ensures
            r matches Some(f) ==> self.callee_fn_spec(locals@, *operand) == Some(*f),
            r is None <==> self.callee_fn_spec(locals@, *operand) is None,
    {
        let ty = match &operand.kind {
            OperandKind::Copy(Place::Local(l)) | OperandKind::Move(Place::Local(l)) => {
                if *l < locals.len() {
                    Some(locals[*l].ty)
                } else {
                    None
                }
            },
            OperandKind::Copy(Place::Field { base, field }) | OperandKind::Move(
                Place::Field { base, field },
            ) => {
                if *base < locals.len() {
                    match self.fact_at(locals[*base].ty) {
                        Some(f) => field_type_find(&f.record_fields, *field),
                        None => None,
                    }
                } else {
                    None
                }
            },
            _ => None,
        };
        match ty {
            Some(t) => match self.type_at(t) {
                Some(Type::Function(f)) => Some(f),
                _ => None,
            },
            None => None,
        }
    }

    /// Returns whether an argument in a mutable parameter slot of `ft` is a
    /// copy of `local` in `blocks`.
    pub fn forwards_to_mutable_slot(blocks: &Vec<BasicBlock>, ft: &FunctionType, args: &Vec<Operand>, local: usize) -> (r:
        bool)
        ensures
            r == mutable_slot_forward(blocks@, *ft, args@, local),
    {
        let mut i: usize = 0;
        while i < args.len()
            invariant
                i <= args.len(),
                forall|k: int|
                    0 <= k < i ==> !(ft.mutable_params@.contains(k as usize) && #[trigger] originates_spec(
                        blocks@,
                        args@[k],
                        local,
                        Set::empty(),
                    )),
            decreases args.len() - i,
        {
            if seq_has(&ft.mutable_params, i) {
                let mut scratch: Vec<usize> = Vec::new();
                proof {
                    assert(scratch@.to_set() =~= Set::empty());
                }
                if Self::operand_originates_from_local_in_blocks(blocks, &args[i], local, &mut scratch) {
                    return true;
                }
            }
            i = i + 1;
        }
        false
    }

    /// Returns whether `value` forwards a copy of the parameter `local` of
    /// `function` into a mutable parameter slot of a called function value.
    pub fn rvalue_forwards_local_to_mutable_callback(
        &self,
        function: &MirFunction,
        value: &Rvalue,
        local: usize,
    ) -> (r: bool)
        ensures
            r == self.rvalue_forwards_spec(*function, *value, local),
    {
        match value {
            Rvalue::ClosureCall { callee, args } => match self.callee_function_type(
                &function.locals,
                callee,
            ) {
                Some(ft) => Self::forwards_to_mutable_slot(&function.blocks, ft, args, local),
                None => false,
            },
            _ => false,
        }
    }

    fn statement_needs_mutable_reference(&self, function: &MirFunction, stmt: &Statement, local: usize) -> (r:
        bool)
        ensures
            r == self.stmt_needs_ref(*function, *stmt, local),
    {
        match stmt {
            Statement::AssignPlace { place: Place::Field { base, .. }, .. } => *base == local,
            Statement::AssignPlace { place: Place::Index { base, .. }, .. } => *base == local,
            Statement::Assign { value, .. } => rvalue_mutates_local(value, local)
                || self.rvalue_forwards_local_to_mutable_callback(function, value, local),
            _ => false,
        }
    }

    fn block_needs_mutable_reference(
        &self,
        function: &MirFunction,
        local: usize,
        seen: &mut Vec<(usize, usize)>,
        b: usize,
    ) -> (r: bool)
        requires
            b < function.blocks.len(),
        ensures
            r == self.block_needs_ref(*function, local, old(seen)@, b as int),
            final(seen)@ == old(seen)@,
        decreases usize::MAX - old(seen)@.len(), 1nat,
    {
        let block = &function.blocks[b];
        let mut k: usize = 0;
        while k < block.statements.len()
            invariant
                b < function.blocks.len(),
                k <= block.statements.len(),
                *block == function.blocks@[b as int],
                forall|j: int| 0 <= j < k ==> !#[trigger] self.stmt_needs_ref(*function, block.statements@[j], local),
            decreases block.statements.len() - k,
        {
            if self.statement_needs_mutable_reference(function, &block.statements[k], local) {
                assert(self.stmt_needs_ref(*function, block.statements@[k as int], local));
                return true;
            }
            k = k + 1;
        }
        match &block.terminator {
            Some(Terminator::Call { callee, args, .. }) => match callee {
                Callee::Static(fid, _) => {
                    let mut i: usize = 0;
                    while i < args.len()
                        invariant
                            i <= args.len(),
                            b < function.blocks.len(),
                            *block == function.blocks@[b as int],
                            block.terminator matches Some(Terminator::Call { callee: Callee::Static(g, _), args: a, .. }) && g == *fid && a == *args,
                            forall|j: int| 0 <= j < block.statements.len() ==> !#[trigger] self.stmt_needs_ref(*function, block.statements@[j], local),
                            seen@ == old(seen)@,
                            !self.static_args_need_ref(*function, local, seen@, *fid, args@, i as nat),
                        decreases args.len() - i,
                    {
                        let mut scratch: Vec<usize> = Vec::new();
                        proof {
                            assert(scratch@.to_set() =~= Set::empty());
                        }
                        if Self::operand_originates_from_local(function, &args[i], local, &mut scratch) {
                            if *fid < self.functions.len() && i < self.functions[*fid].params.len() {
                                let called = &self.functions[*fid];
                                if self.parameter_needs_mutable_reference_in_seen(
                                    called,
                                    called.params[i],
                                    seen,
                                ) {
                                    proof {
                                        assert(self.static_args_need_ref(*function, local, seen@, *fid, args@, (i + 1) as nat));
                                        lemma_static_args_grows(self, *function, local, seen@, *fid, args@, (i + 1) as nat, args.len() as nat);
                                        assert(self.block_needs_ref(*function, local, seen@, b as int));
                                    }
                                    return true;
                                }
                            }
                        }
                        i = i + 1;
                    }
                    false
                },
                Callee::Indirect(op, _) => match self.callee_function_type(&function.locals, op) {
                    Some(ft) => Self::forwards_to_mutable_slot(&function.blocks, ft, args, local),
                    None => false,
                },
                Callee::Builtin(_) => false,
            },
            _ => false,
        }
    }

    /// Returns whether parameter `local` of `function` needs the mutable
    /// reference ABI, skipping the (function, parameter) questions already
    /// under way in `seen`.
    pub fn parameter_needs_mutable_reference_in_seen(
        &self,
        function: &MirFunction,
        local: usize,
        seen: &mut Vec<(usize, usize)>,
    ) -> (r: bool)
        ensures
            r == self.needs_ref_spec(*function, local, old(seen)@),
            final(seen)@ == old(seen)@,
        decreases usize::MAX - old(seen)@.len(), 0nat,
    {
        if !seq_has(&function.params, local) {
            return false;
        }
        if !(local < function.locals.len()
            && self.parameter_type_has_shared_mutation_semantics(function.locals[local].ty)) {
            return false;
        }
        let key = (function.id, local);
        if pair_has(seen, key) {
            return false;
        }
        let ghost entry = seen@;
        seen.push(key);
        let _len = seen.len();
        let mut needs = false;
        let mut b: usize = 0;
        while b < function.blocks.len() && !needs
            invariant
                b <= function.blocks.len(),
                seen@ == entry.push(key),
                entry == old(seen)@,
                entry.len() < usize::MAX,
                key == (function.id, local),
                needs == self.blocks_need_ref(*function, local, entry.push(key), b as nat),
            decreases function.blocks.len() - b,
        {
            needs = self.block_needs_mutable_reference(function, local, seen, b);
            b = b + 1;
        }
        proof {
            if !needs {
                assert(b == function.blocks.len());
            } else {
                lemma_blocks_need_ref_grows(self, *function, local, entry.push(key), b as nat, function.blocks.len() as nat);
            }
        }
        seen.pop();
        proof {
            assert(seen@ =~= entry);
        }
        needs
    }

    /// Returns whether parameter `local` of `function` needs the mutable
    /// reference ABI: the function mutates it in place, through a field or
    /// index write, an in-place runtime operation, or a callee whose
    /// parameter needs it.
    pub fn parameter_needs_mutable_reference_in(&self, function: &MirFunction, local: usize) -> (r: bool)
        ensures
            r == self.needs_ref_spec(*function, local, Seq::empty()),
    {
        let mut seen: Vec<(usize, usize)> = Vec::new();
        self.parameter_needs_mutable_reference_in_seen(function, local, &mut seen)
    }

    /// Returns whether parameter `local` of the function being emitted needs
    /// the mutable reference ABI.
    pub fn parameter_needs_mutable_reference(&self, local: usize) -> (r: bool)
        ensures
            r == self.needs_ref_spec(self.function, local, Seq::empty()),
    {
        self.parameter_needs_mutable_reference_in(&self.function, local)
    }
}

/// The local a place writes through.
pub open spec fn place_base(place: Place) -> usize {
    match place {
        Place::Local(l) => l,
        Place::Field { base, .. } => base,
        Place::Index { base, .. } => base,
    }
}

impl FunctionEmitter {
    /// `value`, in closure `c`, forwards a copy of `target` into a mutable
    /// parameter slot of a called function value.
    pub open spec fn closure_forwards_spec(&self, c: MirClosure, value: Rvalue, target: usize) -> bool {
        match value {
            Rvalue::ClosureCall { callee, args } => match self.callee_fn_spec(c.locals@, callee) {
                Some(ft) => mutable_slot_forward(c.blocks@, ft, args@, target),
                None => false,
            },
            _ => false,
        }
    }

    /// A terminator of closure `c` writes `target`: a call stores its result
    /// there, or forwards a copy of it where the callee mutates it.
    pub open spec fn closure_term_writes(&self, c: MirClosure, term: Option<Terminator>, target: usize) -> bool {
        match term {
            Some(Terminator::Call { callee, args, dest, .. }) => dest == target || match callee {
                Callee::Static(fid, _) => exists|i: int|
                    0 <= i < args.len() && #[trigger] originates_spec(
                        c.blocks@,
                        args@[i],
                        target,
                        Set::empty(),
                    ) && fid < self.functions.len() && i < self.functions@[fid as int].params.len()
                        && self.needs_ref_spec(
                        self.functions@[fid as int],
                        self.functions@[fid as int].params@[i],
                        Seq::empty(),
                    ),
                Callee::Indirect(op, _) => match self.callee_fn_spec(c.locals@, op) {
                    Some(ft) => mutable_slot_forward(c.blocks@, ft, args@, target),
                    None => false,
                },
                Callee::Builtin(_) => false,
            },
            _ => false,
        }
    }

    /// A statement of closure `c` writes `target`.
    pub open spec fn closure_stmt_writes(&self, c: MirClosure, stmt: Statement, target: usize) -> bool {
        match stmt {
            Statement::Assign { dest, value } => dest == target || rvalue_mutates_spec(value, target)
                || rvalue_borrows_mut_spec(value, target) || self.closure_forwards_spec(c, value, target),
            Statement::AssignPlace { place, .. } => place_base(place) == target,
            _ => false,
        }
    }

    /// A block of closure `c` writes `target`.
    pub open spec fn closure_block_writes(&self, c: MirClosure, block: BasicBlock, target: usize) -> bool {
        (exists|k: int|
            0 <= k < block.statements.len() && #[trigger] self.closure_stmt_writes(
                c,
                block.statements@[k],
                target,
            )) || self.closure_term_writes(c, block.terminator, target)
    }

    /// Block `b` of closure `c` writes `target`.
    pub open spec fn block_writes_at(&self, c: MirClosure, b: int, target: usize) -> bool {
        0 <= b < c.blocks.len() && self.closure_block_writes(c, c.blocks@[b], target)
    }

    /// The body of closure `c` writes the binding `capture` captures.
    pub open spec fn capture_writes_spec(&self, c: MirClosure, capture: Capture) -> bool {
        match capture.target_local {
            None => false,
            Some(t) => exists|b: int| #[trigger] self.block_writes_at(c, b, t),
        }
    }

    /// Some escaping closure of the program writes its capture of
    /// `source_local`.
    pub open spec fn escaping_mutated_spec(&self, source_local: usize) -> bool {
        exists|id: int, k: int|
            0 <= id < self.closures.len() && 0 <= k < self.closures@[id].captures.len()
                && self.closures@[id].escapes && self.closures@[id].captures@[k].source_local
                == source_local && #[trigger] self.capture_writes_spec(
                self.closures@[id],
                self.closures@[id].captures@[k],
            )
    }

    /// The capture of closure `c` must share storage with the outer binding.
    pub open spec fn needs_shared_spec(&self, c: MirClosure, capture: Capture) -> bool {
        ||| capture.mode is ByMut
        ||| self.capture_scan(flat(self.function.blocks@), capture.source_local).assigned
        ||| (c.escapes && !(self.local_decl_spec(capture.source_local) matches Some(d) && self.ty(
            d.ty,
        ) matches Some(Type::Function(_))) && self.escaping_mutated_spec(capture.source_local))
        ||| (!(capture.mode is ByValue) && self.capture_writes_spec(c, capture))
    }

    /// Capture `k` of the closure built by `stmt` is of `local` and needs
    /// shared storage.
    pub open spec fn capture_needs_at(&self, stmt: Statement, k: int, local: usize) -> bool {
        match stmt {
            Statement::Assign { value: Rvalue::Closure { id, .. }, .. } => id < self.closures.len() && 0 <= k
                < self.closures@[id as int].captures.len() && self.closures@[id as int].captures@[k].source_local
                == local && self.needs_shared_spec(
                self.closures@[id as int],
                self.closures@[id as int].captures@[k],
            ),
            _ => false,
        }
    }

    /// A closure built in the function being emitted captures `local` in a
    /// way that needs shared storage.
    pub open spec fn shared_storage_spec(&self, local: usize) -> bool {
        exists|b: int, s: int, k: int|
            0 <= b < self.function.blocks.len() && 0 <= s < self.function.blocks@[b].statements.len()
                && #[trigger] self.capture_needs_at(self.function.blocks@[b].statements@[s], k, local)
    }

    /// The function type of a callee operand in closure `closure`'s body.
    pub fn closure_operand_function_type<'a>(&'a self, closure: &MirClosure, operand: &Operand) -> (r:
        Option<&'a FunctionType>)
        ensures
            r matches Some(f) ==> self.callee_fn_spec(closure.locals@, *operand) == Some(*f),
            r is None <==> self.callee_fn_spec(closure.locals@, *operand) is None,
    {
        self.callee_function_type(&closure.locals, operand)
    }

    /// Returns whether a closure-body call of a function value forwards
    /// `target` into a mutable parameter slot.
    pub fn closure_rvalue_forwards_local_to_mutable_callback(
        &self,
        closure: &MirClosure,
        value: &Rvalue,
        target: usize,
    ) -> (r: bool)
        ensures
            r == self.closure_forwards_spec(*closure, *value, target),
    {
        match value {
            Rvalue::ClosureCall { callee, args } => match self.closure_operand_function_type(
                closure,
                callee,
            ) {
                Some(ft) => {
                    if ft.mutable_params.len() == 0 {
                        assert(forall|i: int| !(#[trigger] ft.mutable_params@.contains(i as usize)));
                        return false;
                    }
                    Self::forwards_to_mutable_slot(&closure.blocks, ft, args, target)
                },
                None => false,
            },
            _ => false,
        }
    }

    /// Returns whether a closure block terminator writes `target`: it stores
    /// its call result there, or forwards a copy of it to a static callee
    /// parameter that needs a mutable reference or to a mutable callback
    /// slot.
    pub fn closure_terminator_writes_local(
        &self,
        closure: &MirClosure,
        terminator: Option<&Terminator>,
        target: usize,
    ) -> (r: bool)
        ensures
            r == self.closure_term_writes(
                *closure,
                match terminator {
                    Some(t) => Some(*t),
                    None => None,
                },
                target,
            ),
    {
        let (callee, args, dest) = match terminator {
            Some(Terminator::Call { callee, args, dest, .. }) => (callee, args, *dest),
            _ => {
                return false;
            },
        };
        if dest == target {
            return true;
        }
        match callee {
            Callee::Static(fid, _) => {
                let mut i: usize = 0;
                while i < args.len()
                    invariant
                        i <= args.len(),
                        (match terminator {
                            Some(t) => Some(*t),
                            None => None,
                        }) matches Some(Terminator::Call { callee: Callee::Static(g, _), args: a, dest: d, .. })
                            && g == *fid && a == *args && d != target,
                        forall|j: int|
                            0 <= j < i ==> !(#[trigger] originates_spec(
                                closure.blocks@,
                                args@[j],
                                target,
                                Set::empty(),
                            ) && *fid < self.functions.len() && j < self.functions@[*fid as int].params.len()
                                && self.needs_ref_spec(
                                self.functions@[*fid as int],
                                self.functions@[*fid as int].params@[j],
                                Seq::empty(),
                            )),
                    decreases args.len() - i,
                {
                    let mut scratch: Vec<usize> = Vec::new();
                    proof {
                        assert(scratch@.to_set() =~= Set::empty());
                    }
                    if Self::operand_originates_from_local_in_blocks(
                        &closure.blocks,
                        &args[i],
                        target,
                        &mut scratch,
                    ) {
                        if *fid < self.functions.len() && i < self.functions[*fid].params.len() {
                            let called = &self.functions[*fid];
                            if self.parameter_needs_mutable_reference_in(called, called.params[i]) {
                                assert(originates_spec(closure.blocks@, args@[i as int], target, Set::empty()));
                                return true;
                            }
                        }
                    }
                    i = i + 1;
                }
                false
            },
            Callee::Indirect(op, _) => match self.closure_operand_function_type(closure, op) {
                Some(ft) => {
                    if ft.mutable_params.len() == 0 {
                        assert(forall|i: int| !(#[trigger] ft.mutable_params@.contains(i as usize)));
                        return false;
                    }
                    Self::forwards_to_mutable_slot(&closure.blocks, ft, args, target)
                },
                None => false,
            },
            Callee::Builtin(_) => false,
        }
    }

    fn closure_statement_writes(&self, closure: &MirClosure, stmt: &Statement, target: usize) -> (r: bool)
        ensures
            r == self.closure_stmt_writes(*closure, *stmt, target),
    {
        match stmt {
            Statement::Assign { dest, value } => *dest == target || rvalue_mutates_local(value, target)
                || rvalue_borrows_local_mutably(value, target)
                || self.closure_rvalue_forwards_local_to_mutable_callback(closure, value, target),
            Statement::AssignPlace { place, .. } => match place {
                Place::Local(l) => *l == target,
                Place::Field { base, .. } => *base == target,
                Place::Index { base, .. } => *base == target,
            },
            _ => false,
        }
    }

    /// Returns whether the body of `closure` assigns to or mutates the local
    /// that `capture` binds: a rebind, a place write, an in-place runtime
    /// operation, a mutable borrow, or forwarding into a callee or callback
    /// that mutates it.
    pub fn closure_capture_body_writes(&self, closure: &MirClosure, capture: &Capture) -> (r: bool)
        ensures
            r == self.capture_writes_spec(*closure, *capture),
    {
        let target = match capture.target_local {
            Some(t) => t,
            None => {
                return false;
            },
        };
        let mut b: usize = 0;
        while b < closure.blocks.len()
            invariant
                b <= closure.blocks.len(),
                capture.target_local == Some(target),
                forall|j: int| 0 <= j < b ==> !#[trigger] self.block_writes_at(*closure, j, target),
            decreases closure.blocks.len() - b,
        {
            let block = &closure.blocks[b];
            let mut k: usize = 0;
            while k < block.statements.len()
                invariant
                    b < closure.blocks.len(),
                    *block == closure.blocks@[b as int],
                    capture.target_local == Some(target),
                    forall|j: int| 0 <= j < b ==> !#[trigger] self.block_writes_at(*closure, j, target),
                    k <= block.statements.len(),
                    forall|j: int| 0 <= j < k ==> !#[trigger] self.closure_stmt_writes(*closure, block.statements@[j], target),
                decreases block.statements.len() - k,
            {
                if self.closure_statement_writes(closure, &block.statements[k], target) {
                    assert(self.closure_stmt_writes(*closure, block.statements@[k as int], target));
                    assert(self.closure_block_writes(*closure, closure.blocks@[b as int], target));
                    assert(self.block_writes_at(*closure, b as int, target));
                    assert(exists|bb: int| #[trigger] self.block_writes_at(*closure, bb, target));
                assert(capture.target_local is Some && capture.target_local->0 == target);
                    return true;
                }
                k = k + 1;
            }
            let term = match &block.terminator {
                Some(t) => Some(t),
                None => None,
            };
            if self.closure_terminator_writes_local(closure, term, target) {
                assert(self.closure_block_writes(*closure, closure.blocks@[b as int], target));
                assert(self.block_writes_at(*closure, b as int, target));
                assert(exists|bb: int| #[trigger] self.block_writes_at(*closure, bb, target));
                assert(capture.target_local is Some && capture.target_local->0 == target);
                return true;
            }
            b = b + 1;
        }
        false
    }

    /// Returns whether an escaping closure of the program writes its capture
    /// of `source_local`.
    pub fn escaping_closure_capture_is_mutated(&self, source_local: usize) -> (r: bool)
        ensures
            r == self.escaping_mutated_spec(source_local),
    {
        let mut id: usize = 0;
        while id < self.closures.len()
            invariant
                id <= self.closures.len(),
                forall|i: int, k: int|
                    0 <= i < id && 0 <= k < self.closures@[i].captures.len() && self.closures@[i].escapes
                        && self.closures@[i].captures@[k].source_local == source_local
                        ==> !#[trigger] self.capture_writes_spec(self.closures@[i], self.closures@[i].captures@[k]),
            decreases self.closures.len() - id,
        {
            let candidate = &self.closures[id];
            if candidate.escapes {
                let mut k: usize = 0;
                while k < candidate.captures.len()
                    invariant
                        id < self.closures.len(),
                        *candidate == self.closures@[id as int],
                        candidate.escapes,
                        k <= candidate.captures.len(),
                        forall|j: int|
                            0 <= j < k && candidate.captures@[j].source_local == source_local
                                ==> !#[trigger] self.capture_writes_spec(*candidate, candidate.captures@[j]),
                    decreases candidate.captures.len() - k,
                {
                    let capture = &candidate.captures[k];
                    if capture.source_local == source_local && self.closure_capture_body_writes(candidate, capture) {
                        assert(self.capture_writes_spec(self.closures@[id as int], self.closures@[id as int].captures@[k as int]));
                        return true;
                    }
                    k = k + 1;
                }
            }
            id = id + 1;
        }
        false
    }

    /// Returns whether a capture must share storage with the outer binding:
    /// it is captured by mutable reference, assigned after the closure is
    /// built, mutated by an escaping closure, or written by this closure's
    /// body when not captured by value.
    pub fn closure_capture_needs_shared_access(&self, closure: &MirClosure, capture: &Capture) -> (r:
        bool)
        ensures
            r == self.needs_shared_spec(*closure, *capture),
    {
        if let CaptureMode::ByMut = capture.mode {
            return true;
        }
        if self.local_is_assigned_after_capture(capture.source_local) {
            return true;
        }
        if closure.escapes {
            let is_function = match self.local_decl(capture.source_local) {
                Ok(d) => self.is_function_type(d.ty),
                Err(_) => false,
            };
            if !is_function && self.escaping_closure_capture_is_mutated(capture.source_local) {
                return true;
            }
        }
        if let CaptureMode::ByValue = capture.mode {
            return false;
        }
        self.closure_capture_body_writes(closure, capture)
    }

    /// Returns whether an outer binding needs storage shared with a closure
    /// that captures it.
    pub fn local_uses_shared_capture_storage(&self, local: usize) -> (r: bool)
        ensures
            r == self.shared_storage_spec(local),
    {
        let mut b: usize = 0;
        while b < self.function.blocks.len()
            invariant
                b <= self.function.blocks.len(),
                forall|b2: int, s2: int, k: int|
                    0 <= b2 < b && 0 <= s2 < self.function.blocks@[b2].statements.len() ==> !#[trigger] self.capture_needs_at(
                        self.function.blocks@[b2].statements@[s2],
                        k,
                        local,
                    ),
            decreases self.function.blocks.len() - b,
        {
            let stmts = &self.function.blocks[b].statements;
            let mut s: usize = 0;
            while s < stmts.len()
                invariant
                    b < self.function.blocks.len(),
                    *stmts == self.function.blocks@[b as int].statements,
                    s <= stmts.len(),
                    forall|b2: int, s2: int, k: int|
                        0 <= b2 < self.function.blocks.len() && 0 <= s2 < self.function.blocks@[b2].statements.len()
                            && (b2 < b || (b2 == b && s2 < s)) ==> !#[trigger] self.capture_needs_at(
                            self.function.blocks@[b2].statements@[s2],
                            k,
                            local,
                        ),
                decreases stmts.len() - s,
            {
                if let Statement::Assign { value: Rvalue::Closure { id, .. }, .. } = &stmts[s] {
                    if *id < self.closures.len() {
                        let closure = &self.closures[*id];
                        let mut k: usize = 0;
                        while k < closure.captures.len()
                            invariant
                                *id < self.closures.len(),
                                *closure == self.closures@[*id as int],
                                b < self.function.blocks.len(),
                                s < stmts.len(),
                                *stmts == self.function.blocks@[b as int].statements,
                                stmts@[s as int] matches Statement::Assign { value: Rvalue::Closure { id: i2, .. }, .. } && i2 == *id,
                                k <= closure.captures.len(),
                                forall|j: int|
                                    0 <= j < k && closure.captures@[j].source_local == local ==> !self.needs_shared_spec(
                                        *closure,
                                        #[trigger] closure.captures@[j],
                                    ),
                            decreases closure.captures.len() - k,
                        {
                            let capture = &closure.captures[k];
                            if capture.source_local == local && self.closure_capture_needs_shared_access(closure, capture) {
                                assert(self.capture_needs_at(self.function.blocks@[b as int].statements@[s as int], k as int, local));
                                return true;
                            }
                            k = k + 1;
                        }
                    }
                }
                s = s + 1;
            }
            b = b + 1;
        }
        false
    }
}

proof fn lemma_static_args_grows(
    e: &FunctionEmitter,
    f: MirFunction,
    local: usize,
    seen: Seq<(usize, usize)>,
    fid: usize,
    args: Seq<Operand>,
    a: nat,
    n: nat,
)
    requires
        a <= n <= args.len(),
        e.static_args_need_ref(f, local, seen, fid, args, a),
    ensures
        e.static_args_need_ref(f, local, seen, fid, args, n),
    decreases n - a,
{
    if a < n {
        lemma_static_args_grows(e, f, local, seen, fid, args, a, (n - 1) as nat);
    }
}

proof fn lemma_blocks_need_ref_grows(
    e: &FunctionEmitter,
    f: MirFunction,
    local: usize,
    seen: Seq<(usize, usize)>,
    a: nat,
    n: nat,
)
    requires
        a <= n <= f.blocks.len(),
        e.blocks_need_ref(f, local, seen, a),
    ensures
        e.blocks_need_ref(f, local, seen, n),
    decreases n - a,
{
    if a < n {
        lemma_blocks_need_ref_grows(e, f, local, seen, a, (n - 1) as nat);
    }
}

} // verus!
