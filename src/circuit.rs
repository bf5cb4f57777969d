use vstd::prelude::*;

use crate::error::BridgeError;

verus! {

/// A variable of a rank-one constraint system: the constant one, a public
/// input, or a private witness, each indexed from zero in allocation order.
#[derive(Clone, Copy, Debug, PartialEq, Eq, Structural)]
pub enum VarRef {
    One,
    Input(usize),
    Witness(usize),
}

/// A rank-one constraint `a * b == c`, where each side is the sum of its
/// variables (every coefficient is one; a repeated variable counts twice).
pub struct Constraint {
    pub a: Vec<VarRef>,
    pub b: Vec<VarRef>,
    pub c: Vec<VarRef>,
}

impl View for Constraint {
    type V = (Seq<VarRef>, Seq<VarRef>, Seq<VarRef>);

    open spec fn view(&self) -> Self::V {
        (self.a@, self.b@, self.c@)
    }
}

/// The sum of a sequence of values.
pub open spec fn seq_sum(s: Seq<u64>) -> int
    decreases s.len(),
{
    if s.len() == 0 {
        0
    } else {
        seq_sum(s.drop_last()) + s.last() as int
    }
}

/// The witness variables `0 .. n`, in order.
pub open spec fn witness_range(n: nat) -> Seq<VarRef> {
    Seq::new(n, |i: int| VarRef::Witness(i as usize))
}

/// The constraints that aggregate `n` values: the witnessed values `0 .. n`
/// add up to the running-sum witness `n`, and that witness equals public
/// input `0`. It depends on `n` alone, never on the values.
pub open spec fn aggregation_topology(n: nat) -> Seq<(Seq<VarRef>, Seq<VarRef>, Seq<VarRef>)> {
    seq![
        (witness_range(n), seq![VarRef::One], seq![VarRef::Witness(n as usize)]),
        (seq![VarRef::Witness(n as usize)], seq![VarRef::One], seq![VarRef::Input(0)]),
    ]
}

/// The value of a variable under witness values `w` and public values `x`.
pub open spec fn var_value(v: VarRef, w: Seq<int>, x: Seq<int>) -> int {
    match v {
        VarRef::One => 1,
        VarRef::Input(i) => if i < x.len() { x[i as int] } else { 0 },
        VarRef::Witness(i) => if i < w.len() { w[i as int] } else { 0 },
    }
}

/// The value of a unit-coefficient linear combination.
pub open spec fn lc_value(lc: Seq<VarRef>, w: Seq<int>, x: Seq<int>) -> int
    decreases lc.len(),
{
    if lc.len() == 0 {
        0
    } else {
        lc_value(lc.drop_last(), w, x) + var_value(lc.last(), w, x)
    }
}

/// Every constraint holds over the integers (hence also modulo the field's prime).
pub open spec fn satisfies(
    cs: Seq<(Seq<VarRef>, Seq<VarRef>, Seq<VarRef>)>,
    w: Seq<int>,
    x: Seq<int>,
) -> bool {
    forall|i: int|
        0 <= i < cs.len() ==> #[trigger] lc_value(cs[i].0, w, x) * lc_value(cs[i].1, w, x)
            == lc_value(cs[i].2, w, x)
}

/// The witness values of the aggregation circuit: the inputs, then their sum.
pub open spec fn witness_assignment(inputs: Seq<u64>) -> Seq<int> {
    inputs.map_values(|v: u64| v as int).push(seq_sum(inputs))
}

/// The concrete values that the prover aggregates, and the claimed public sum.
pub struct Witness {
    pub inputs: Vec<u64>,
    pub sum: u64,
}

/// Values assigned to the variables of a synthesized constraint system.
pub struct Assignment {
    pub witness: Vec<u128>,
    pub public: Vec<u128>,
}

/// The circuit that proves knowledge of `arity` values adding up to a public sum.
/// Without a witness it still describes the constraint topology (for setup).
pub struct AggregationCircuit {
    pub arity: usize,
    pub witness: Option<Witness>,
}

proof fn lemma_range_value(inputs: Seq<u64>, k: nat, x: Seq<int>)
    requires
        k <= inputs.len() <= usize::MAX,
    ensures
        lc_value(witness_range(k), witness_assignment(inputs), x) == seq_sum(inputs.take(k as int)),
    decreases k,
{
    if k > 0 {
        let w = witness_assignment(inputs);
        lemma_range_value(inputs, (k - 1) as nat, x);
        assert(witness_range(k).drop_last() =~= witness_range((k - 1) as nat));
        assert(inputs.take(k as int).drop_last() =~= inputs.take(k - 1));
        assert(witness_range(k).last() == VarRef::Witness((k - 1) as usize));
        assert(w[k - 1] == inputs[k - 1] as int);
    } else {
        assert(inputs.take(0) =~= Seq::<u64>::empty());
    }
}

/// The aggregation constraints, under the prover's assignment, hold exactly
/// when the inputs add up to the claimed public sum.
pub proof fn lemma_satisfied_iff_sum(inputs: Seq<u64>, sum: u64)
    requires
        inputs.len() <= usize::MAX,
    ensures
        satisfies(aggregation_topology(inputs.len()), witness_assignment(inputs), seq![sum as int])
            <==> seq_sum(inputs) == sum as int,
{
    let n = inputs.len();
    let w = witness_assignment(inputs);
    let x = seq![sum as int];
    let cs = aggregation_topology(n);
    lemma_range_value(inputs, n, x);
    assert(inputs.take(n as int) =~= inputs);
    let one = seq![VarRef::One];
    let top = seq![VarRef::Witness(n as usize)];
    let inp = seq![VarRef::Input(0)];
    assert(one.drop_last() =~= Seq::<VarRef>::empty());
    assert(top.drop_last() =~= Seq::<VarRef>::empty());
    assert(inp.drop_last() =~= Seq::<VarRef>::empty());
    assert(lc_value(Seq::<VarRef>::empty(), w, x) == 0);
    assert(lc_value(one, w, x) == 1);
    assert(lc_value(top, w, x) == seq_sum(inputs));
    assert(lc_value(inp, w, x) == sum as int);
    assert(lc_value(cs[0].0, w, x) * lc_value(cs[0].1, w, x) == lc_value(cs[0].2, w, x));
    if satisfies(cs, w, x) {
        assert(lc_value(cs[1].0, w, x) * lc_value(cs[1].1, w, x) == lc_value(cs[1].2, w, x));
    }
}

/// Adds the values in order, without overflow: `n` values of 64 bits fit in 128.
fn sum_u128(inputs: &Vec<u64>) -> (r: u128)
    ensures
        r as int == seq_sum(inputs@),
{
    let mut acc: u128 = 0;
    let mut i: usize = 0;
    while i < inputs.len()
        invariant
            i <= inputs@.len(),
            acc as int == seq_sum(inputs@.take(i as int)),
            acc as int <= i as int * (u64::MAX as int),
        decreases inputs@.len() - i,
    {
        assert(inputs@.take(i + 1).drop_last() =~= inputs@.take(i as int));
        let v = inputs[i];
        proof {
            let m = u64::MAX as int;
            assert((i as int) * m + m == (i as int + 1) * m) by (nonlinear_arith);
            assert((i as int + 1) * m <= (usize::MAX as int) * m) by (nonlinear_arith)
                requires
                    i as int + 1 <= usize::MAX as int,
                    m >= 0,
            ;
        }
        acc = acc + v as u128;
        i = i + 1;
    }
    assert(inputs@.take(inputs@.len() as int) =~= inputs@);
    acc
}

impl AggregationCircuit {
    /// Every supplied witness has one value per aggregated input.
    pub open spec fn wf(&self) -> bool {
        self.witness is Some ==> self.witness->0.inputs@.len() == self.arity
    }

    /// The relation holds: a witness is present and its inputs add up to its sum.
    pub open spec fn relation_holds(&self) -> bool {
        &&& self.witness is Some
        &&& seq_sum(self.witness->0.inputs@) == self.witness->0.sum as int
    }

    /// The circuit for `arity` inputs with no values, as used at setup time.
    pub fn shape(arity: usize) -> (r: AggregationCircuit)
        ensures
            r.wf(),
            r.arity == arity,
            r.witness is None,
    {
        AggregationCircuit { arity, witness: None }
    }

    /// The circuit over concrete inputs and a claimed public sum.
    pub fn with_witness(inputs: Vec<u64>, sum: u64) -> (r: AggregationCircuit)
        ensures
            r.wf(),
            r.arity == inputs@.len(),
            r.witness is Some,
            r.witness->0.inputs@ == inputs@,
            r.witness->0.sum == sum,
    {
        let arity = inputs.len();
        AggregationCircuit { arity, witness: Some(Witness { inputs, sum }) }
    }

    /// The constraints of this circuit, in the order they are enforced.
    pub fn constraints(&self) -> (r: Vec<Constraint>)
        ensures
            r@.map_values(|c: Constraint| c@) == aggregation_topology(self.arity as nat),
    {
        let n = self.arity;
        let mut terms: Vec<VarRef> = Vec::new();
        let mut i: usize = 0;
        while i < n
            invariant
                i <= n,
                n == self.arity,
                terms@ == witness_range(i as nat),
            decreases n - i,
        {
            terms.push(VarRef::Witness(i));
            i = i + 1;
            assert(terms@ =~= witness_range(i as nat));
        }
        let first = Constraint { a: terms, b: vec![VarRef::One], c: vec![VarRef::Witness(n)] };
        let second = Constraint {
            a: vec![VarRef::Witness(n)],
            b: vec![VarRef::One],
            c: vec![VarRef::Input(0)],
        };
        assert(first.b@ =~= seq![VarRef::One]);
        assert(first.c@ =~= seq![VarRef::Witness(n)]);
        assert(second.a@ =~= seq![VarRef::Witness(n)]);
        assert(second.b@ =~= seq![VarRef::One]);
        assert(second.c@ =~= seq![VarRef::Input(0)]);
        let r = vec![first, second];
        assert(r@[0]@ == aggregation_topology(self.arity as nat)[0]);
        assert(r@[1]@ == aggregation_topology(self.arity as nat)[1]);
        assert(r@.map_values(|c: Constraint| c@) =~= aggregation_topology(self.arity as nat));
        r
    }

    /// The values of the witness and public variables, when a witness is present.
    pub fn assignment(&self) -> (r: Option<Assignment>)
        requires
            self.wf(),
        ensures
            self.witness is None <==> r is None,
            r is Some ==> r->0.witness@.map_values(|v: u128| v as int) == witness_assignment(
                self.witness->0.inputs@,
            ),
            r is Some ==> r->0.public@.map_values(|v: u128| v as int) == seq![
                self.witness->0.sum as int,
            ],
    {
        match &self.witness {
            None => None,
            Some(w) => {
                let total = sum_u128(&w.inputs);
                let mut values: Vec<u128> = Vec::new();
                let mut i: usize = 0;
                while i < w.inputs.len()
                    invariant
                        i <= w.inputs@.len(),
                        values@.len() == i,
                        forall|j: int| 0 <= j < i ==> values@[j] == w.inputs@[j] as u128,
                    decreases w.inputs@.len() - i,
                {
                    values.push(w.inputs[i] as u128);
                    i = i + 1;
                }
                values.push(total);
                assert(values@.map_values(|v: u128| v as int) =~= witness_assignment(w.inputs@));
                let public = vec![w.sum as u128];
                assert(public@.map_values(|v: u128| v as int) =~= seq![w.sum as int]);
                Some(Assignment { witness: values, public })
            },
        }
    }

    /// Checks the witness against the relation before any proving work:
    /// fails with `ConstraintError` unless a witness is present and satisfies
    /// the constraints. The sum of 64-bit inputs stays far below the field's
    /// prime, so agreement over the integers is agreement in the field.
    pub fn check_witness(&self) -> (r: Result<(), BridgeError>)
        requires
            self.wf(),
        ensures
            r is Ok <==> self.relation_holds(),
            r is Ok <==> (self.witness is Some && satisfies(
                aggregation_topology(self.arity as nat),
                witness_assignment(self.witness->0.inputs@),
                seq![self.witness->0.sum as int],
            )),
            r is Err ==> r == Err::<(), BridgeError>(BridgeError::ConstraintError),
    {
        match &self.witness {
            None => Err(BridgeError::ConstraintError),
            Some(w) => {
                proof {
                    lemma_satisfied_iff_sum(w.inputs@, w.sum);
                }
                let total = sum_u128(&w.inputs);
                if total == w.sum as u128 {
                    Ok(())
                } else {
                    Err(BridgeError::ConstraintError)
                }
            },
        }
    }
}

} // verus!
