//! Flat documents and their patches.
//!
//! A Kubernetes resource is updated by sending the difference between its
//! observed and its desired state as a patch.  The library models a
//! JSON-representable resource as a flat document: field paths mapped to
//! scalar values, kept sorted by path with no duplicate.  `diff` computes
//! the patch that turns one document into another, `apply` applies a
//! patch; applying `diff(a, b)` to `a` yields exactly `b`, and `diff(a, a)`
//! is the empty patch.

use vstd::prelude::*;
use vstd::utf8::encode_utf8;

use crate::text::{bytes_eq, bytes_lt, lex_lt};

verus! {

// ---------------------------------------------------------------------------
// Values

/// A JSON-representable scalar value.
#[derive(Clone, Debug)]
pub enum Value {
    Null,
    Bool(bool),
    Int(i64),
    Str(String),
}

/// The mathematical content of a scalar value.
pub enum ValueView {
    Null,
    Bool(bool),
    Int(i64),
    Str(Seq<char>),
}

impl View for Value {
    type V = ValueView;

    open spec fn view(&self) -> ValueView {
        match self {
            Value::Null => ValueView::Null,
            Value::Bool(b) => ValueView::Bool(*b),
            Value::Int(n) => ValueView::Int(*n),
            Value::Str(s) => ValueView::Str(s@),
        }
    }
}

impl Value {
    /// A copy of the value with the same content.
    pub fn duplicate(&self) -> (r: Value)
        ensures
            r@ == self@,
    {
        match self {
            Value::Null => Value::Null,
            Value::Bool(b) => Value::Bool(*b),
            Value::Int(n) => Value::Int(*n),
            Value::Str(s) => Value::Str(s.clone()),
        }
    }
}

/// Whether two values hold the same content.
pub fn value_eq(a: &Value, b: &Value) -> (r: bool)
    ensures
        r == (a@ == b@),
{
    match (a, b) {
        (Value::Null, Value::Null) => true,
        (Value::Bool(x), Value::Bool(y)) => x == y,
        (Value::Int(x), Value::Int(y)) => x == y,
        (Value::Str(x), Value::Str(y)) => x.eq(y),
        _ => false,
    }
}

// ---------------------------------------------------------------------------
// Documents

/// A flat document: field paths mapped to scalar values, sorted by path.
#[derive(Clone, Debug)]
pub struct Document {
    pub fields: Vec<(String, Value)>,
}

/// A field of the document at the spec level: the path's bytes and the
/// value's content.
pub open spec fn field_view(p: (String, Value)) -> (Seq<u8>, ValueView) {
    (encode_utf8(p.0@), p.1@)
}

/// The fields of a document at the spec level.
pub open spec fn fields_view(s: Seq<(String, Value)>) -> Seq<(Seq<u8>, ValueView)> {
    s.map(|_i: int, p: (String, Value)| field_view(p))
}

impl View for Document {
    type V = Seq<(Seq<u8>, ValueView)>;

    open spec fn view(&self) -> Seq<(Seq<u8>, ValueView)> {
        fields_view(self.fields@)
    }
}

/// Well-formed: paths strictly increase, so each path occurs once.
pub open spec fn doc_wf(d: Seq<(Seq<u8>, ValueView)>) -> bool {
    forall|i: int, j: int| 0 <= i < j < d.len() ==> lex_lt(#[trigger] d[i].0, #[trigger] d[j].0)
}

/// Whether some field of `d` has the path `k`.
pub open spec fn doc_has(d: Seq<(Seq<u8>, ValueView)>, k: Seq<u8>) -> bool {
    exists|i: int| 0 <= i < d.len() && d[i].0 == k
}

// ---------------------------------------------------------------------------
// Order facts

pub proof fn lemma_lex_lt_irrefl(a: Seq<u8>)
    ensures
        !lex_lt(a, a),
    decreases a.len(),
{
    if a.len() > 0 {
        lemma_lex_lt_irrefl(a.drop_first());
    }
}

pub proof fn lemma_lex_lt_total(a: Seq<u8>, b: Seq<u8>)
    ensures
        !lex_lt(a, b) && !lex_lt(b, a) ==> a == b,
    decreases a.len(),
{
    if a.len() > 0 && b.len() > 0 && a[0] == b[0] {
        lemma_lex_lt_total(a.drop_first(), b.drop_first());
        if !lex_lt(a, b) && !lex_lt(b, a) {
            assert(a.drop_first() == b.drop_first());
            assert(a =~= seq![a[0]] + a.drop_first());
            assert(b =~= seq![b[0]] + b.drop_first());
        }
    } else {
        if !lex_lt(a, b) && !lex_lt(b, a) {
            assert(a =~= b);
        }
    }
}

pub proof fn lemma_lex_lt_trans(a: Seq<u8>, b: Seq<u8>, c: Seq<u8>)
    requires
        lex_lt(a, b),
        lex_lt(b, c),
    ensures
        lex_lt(a, c),
    decreases a.len(),
{
    if a.len() > 0 && b.len() > 0 && c.len() > 0 && a[0] == b[0] && b[0] == c[0] {
        lemma_lex_lt_trans(a.drop_first(), b.drop_first(), c.drop_first());
    }
}

// ---------------------------------------------------------------------------
// Patches

/// One patch operation, named by the field path it touches.
#[derive(Clone, Debug)]
pub enum PatchOp {
    /// Adds a field that must not exist yet.
    Add(String, Value),
    /// Removes a field that must exist.
    Remove(String),
    /// Changes the value of a field that must exist.
    Replace(String, Value),
}

/// A patch operation at the spec level.
pub enum OpView {
    Add(Seq<u8>, ValueView),
    Remove(Seq<u8>),
    Replace(Seq<u8>, ValueView),
}

impl View for PatchOp {
    type V = OpView;

    open spec fn view(&self) -> OpView {
        match self {
            PatchOp::Add(k, v) => OpView::Add(encode_utf8(k@), v@),
            PatchOp::Remove(k) => OpView::Remove(encode_utf8(k@)),
            PatchOp::Replace(k, v) => OpView::Replace(encode_utf8(k@), v@),
        }
    }
}

/// The field path an operation touches.
pub open spec fn op_key(op: OpView) -> Seq<u8> {
    match op {
        OpView::Add(k, _) => k,
        OpView::Remove(k) => k,
        OpView::Replace(k, _) => k,
    }
}

/// A sequence of patch operations, applied in order.
#[derive(Clone, Debug)]
pub struct Patch {
    pub ops: Vec<PatchOp>,
}

impl View for Patch {
    type V = Seq<OpView>;

    open spec fn view(&self) -> Seq<OpView> {
        self.ops@.map(|_i: int, op: PatchOp| op@)
    }
}

impl Patch {
    /// Whether the patch holds no operation.
    pub fn is_empty(&self) -> (r: bool)
        ensures
            r == (self@.len() == 0),
    {
        self.ops.len() == 0
    }
}

// ---------------------------------------------------------------------------
// diff

/// The patch that turns `a` into `b`: walking both sorted field lists, a
/// path only in `a` is removed, a path only in `b` is added, and a path in
/// both keeps or replaces its value.
pub open spec fn spec_diff(
    a: Seq<(Seq<u8>, ValueView)>,
    b: Seq<(Seq<u8>, ValueView)>,
) -> Seq<OpView>
    decreases a.len() + b.len(),
{
    if a.len() == 0 && b.len() == 0 {
        Seq::empty()
    } else if a.len() == 0 {
        seq![OpView::Add(b[0].0, b[0].1)] + spec_diff(a, b.drop_first())
    } else if b.len() == 0 {
        seq![OpView::Remove(a[0].0)] + spec_diff(a.drop_first(), b)
    } else if a[0].0 == b[0].0 {
        if a[0].1 == b[0].1 {
            spec_diff(a.drop_first(), b.drop_first())
        } else {
            seq![OpView::Replace(b[0].0, b[0].1)] + spec_diff(a.drop_first(), b.drop_first())
        }
    } else if lex_lt(a[0].0, b[0].0) {
        seq![OpView::Remove(a[0].0)] + spec_diff(a.drop_first(), b)
    } else {
        seq![OpView::Add(b[0].0, b[0].1)] + spec_diff(a, b.drop_first())
    }
}

/// The patch that turns `a` into `b`.
pub fn diff(a: &Document, b: &Document) -> (r: Patch)
    ensures
        r@ == spec_diff(a@, b@),
{
    let mut ops: Vec<PatchOp> = Vec::new();
    let mut i: usize = 0;
    let mut j: usize = 0;
    proof {
        assert(a@.skip(0) =~= a@);
        assert(b@.skip(0) =~= b@);
        assert(ops@.map(|_i: int, op: PatchOp| op@) =~= Seq::<OpView>::empty());
    }
    while i < a.fields.len() || j < b.fields.len()
        invariant
            i <= a@.len(),
            j <= b@.len(),
            a@.len() == a.fields@.len(),
            b@.len() == b.fields@.len(),
            spec_diff(a@, b@) == ops@.map(|_i: int, op: PatchOp| op@) + spec_diff(
                a@.skip(i as int),
                b@.skip(j as int),
            ),
        decreases a@.len() - i + b@.len() - j,
    {
        let ghost ra = a@.skip(i as int);
        let ghost rb = b@.skip(j as int);
        let ghost before = ops@.map(|_i: int, op: PatchOp| op@);
        if i >= a.fields.len() {
            // only additions remain
            let key = b.fields[j].0.clone();
            let val = b.fields[j].1.duplicate();
            ops.push(PatchOp::Add(key, val));
            proof {
                assert(rb[0] == b@[j as int]);
                assert(rb.drop_first() =~= b@.skip(j + 1));
                assert(ops@.map(|_i: int, op: PatchOp| op@) =~= before.push(
                    OpView::Add(b@[j as int].0, b@[j as int].1),
                ));
            }
            j = j + 1;
        } else if j >= b.fields.len() {
            let key = a.fields[i].0.clone();
            ops.push(PatchOp::Remove(key));
            proof {
                assert(ra[0] == a@[i as int]);
                assert(ra.drop_first() =~= a@.skip(i + 1));
                assert(ops@.map(|_i: int, op: PatchOp| op@) =~= before.push(
                    OpView::Remove(a@[i as int].0),
                ));
            }
            i = i + 1;
        } else {
            let ka = a.fields[i].0.as_str().as_bytes();
            let kb = b.fields[j].0.as_str().as_bytes();
            proof {
                assert(ra[0] == a@[i as int]);
                assert(rb[0] == b@[j as int]);
                assert(ra.drop_first() =~= a@.skip(i + 1));
                assert(rb.drop_first() =~= b@.skip(j + 1));
            }
            if bytes_eq(ka, kb) {
                if !value_eq(&a.fields[i].1, &b.fields[j].1) {
                    let key = b.fields[j].0.clone();
                    let val = b.fields[j].1.duplicate();
                    ops.push(PatchOp::Replace(key, val));
                    proof {
                        assert(ops@.map(|_i: int, op: PatchOp| op@) =~= before.push(
                            OpView::Replace(b@[j as int].0, b@[j as int].1),
                        ));
                    }
                }
                i = i + 1;
                j = j + 1;
            } else if bytes_lt(ka, kb) {
                let key = a.fields[i].0.clone();
                ops.push(PatchOp::Remove(key));
                proof {
                    assert(ops@.map(|_i: int, op: PatchOp| op@) =~= before.push(
                        OpView::Remove(a@[i as int].0),
                    ));
                }
                i = i + 1;
            } else {
                let key = b.fields[j].0.clone();
                let val = b.fields[j].1.duplicate();
                ops.push(PatchOp::Add(key, val));
                proof {
                    assert(ops@.map(|_i: int, op: PatchOp| op@) =~= before.push(
                        OpView::Add(b@[j as int].0, b@[j as int].1),
                    ));
                }
                j = j + 1;
            }
        }
    }
    proof {
        assert(a@.skip(a@.len() as int) =~= Seq::<(Seq<u8>, ValueView)>::empty());
        assert(b@.skip(b@.len() as int) =~= Seq::<(Seq<u8>, ValueView)>::empty());
    }
    Patch { ops }
}


// ---------------------------------------------------------------------------
// apply

/// Inserts a field before the first one whose path is strictly greater.
pub open spec fn sorted_insert_kv(
    d: Seq<(Seq<u8>, ValueView)>,
    p: (Seq<u8>, ValueView),
) -> Seq<(Seq<u8>, ValueView)>
    decreases d.len(),
{
    if d.len() == 0 {
        seq![p]
    } else if lex_lt(p.0, d[0].0) {
        seq![p] + d
    } else {
        seq![d[0]] + sorted_insert_kv(d.drop_first(), p)
    }
}

/// Removes the first field with the path `k`.
pub open spec fn remove_key(d: Seq<(Seq<u8>, ValueView)>, k: Seq<u8>) -> Seq<
    (Seq<u8>, ValueView),
>
    decreases d.len(),
{
    if d.len() == 0 {
        d
    } else if d[0].0 == k {
        d.drop_first()
    } else {
        seq![d[0]] + remove_key(d.drop_first(), k)
    }
}

/// Changes the value of the first field with the path `k`.
pub open spec fn replace_key(
    d: Seq<(Seq<u8>, ValueView)>,
    k: Seq<u8>,
    v: ValueView,
) -> Seq<(Seq<u8>, ValueView)>
    decreases d.len(),
{
    if d.len() == 0 {
        d
    } else if d[0].0 == k {
        seq![(k, v)] + d.drop_first()
    } else {
        seq![d[0]] + replace_key(d.drop_first(), k, v)
    }
}

/// One operation applied to a document: `Add` requires the path to be
/// absent, `Remove` and `Replace` require it to be present.
pub open spec fn spec_apply_op(d: Seq<(Seq<u8>, ValueView)>, op: OpView) -> Option<
    Seq<(Seq<u8>, ValueView)>,
> {
    match op {
        OpView::Add(k, v) => if doc_has(d, k) {
            None
        } else {
            Some(sorted_insert_kv(d, (k, v)))
        },
        OpView::Remove(k) => if !doc_has(d, k) {
            None
        } else {
            Some(remove_key(d, k))
        },
        OpView::Replace(k, v) => if !doc_has(d, k) {
            None
        } else {
            Some(replace_key(d, k, v))
        },
    }
}

/// The operations applied in order; the first failing one fails the whole
/// patch.
pub open spec fn spec_apply(d: Seq<(Seq<u8>, ValueView)>, ops: Seq<OpView>) -> Option<
    Seq<(Seq<u8>, ValueView)>,
>
    decreases ops.len(),
{
    if ops.len() == 0 {
        Some(d)
    } else {
        match spec_apply_op(d, ops[0]) {
            None => None,
            Some(d2) => spec_apply(d2, ops.drop_first()),
        }
    }
}

// ---------------------------------------------------------------------------
// The patch laws

/// Every path of `d` is strictly greater than `k`.
pub open spec fn keys_all_gt(k: Seq<u8>, d: Seq<(Seq<u8>, ValueView)>) -> bool {
    forall|i: int| 0 <= i < d.len() ==> lex_lt(k, #[trigger] d[i].0)
}

/// Every path an operation touches is strictly greater than `k`.
pub open spec fn ops_keys_gt(k: Seq<u8>, ops: Seq<OpView>) -> bool {
    forall|i: int| 0 <= i < ops.len() ==> lex_lt(k, op_key(#[trigger] ops[i]))
}

proof fn lemma_wf_drop(d: Seq<(Seq<u8>, ValueView)>)
    requires
        doc_wf(d),
        d.len() > 0,
    ensures
        doc_wf(d.drop_first()),
        keys_all_gt(d[0].0, d.drop_first()),
{
    assert(forall|i: int| 0 <= i < d.drop_first().len() ==> #[trigger] d.drop_first()[i] == d[
        i + 1
    ]);
}

proof fn lemma_diff_keys_gt(k: Seq<u8>, a: Seq<(Seq<u8>, ValueView)>, b: Seq<(Seq<u8>, ValueView)>)
    requires
        keys_all_gt(k, a),
        keys_all_gt(k, b),
    ensures
        ops_keys_gt(k, spec_diff(a, b)),
    decreases a.len() + b.len(),
{
    if a.len() == 0 && b.len() == 0 {
    } else if a.len() == 0 {
        assert(keys_all_gt(k, b.drop_first())) by {
            assert(forall|i: int| 0 <= i < b.drop_first().len() ==> #[trigger] b.drop_first()[i]
                == b[i + 1]);
        }
        lemma_diff_keys_gt(k, a, b.drop_first());
        assert(lex_lt(k, b[0].0));
    } else if b.len() == 0 {
        assert(keys_all_gt(k, a.drop_first())) by {
            assert(forall|i: int| 0 <= i < a.drop_first().len() ==> #[trigger] a.drop_first()[i]
                == a[i + 1]);
        }
        lemma_diff_keys_gt(k, a.drop_first(), b);
        assert(lex_lt(k, a[0].0));
    } else {
        assert(keys_all_gt(k, a.drop_first())) by {
            assert(forall|i: int| 0 <= i < a.drop_first().len() ==> #[trigger] a.drop_first()[i]
                == a[i + 1]);
        }
        assert(keys_all_gt(k, b.drop_first())) by {
            assert(forall|i: int| 0 <= i < b.drop_first().len() ==> #[trigger] b.drop_first()[i]
                == b[i + 1]);
        }
        if a[0].0 == b[0].0 {
            lemma_diff_keys_gt(k, a.drop_first(), b.drop_first());
        } else if lex_lt(a[0].0, b[0].0) {
            lemma_diff_keys_gt(k, a.drop_first(), b);
        } else {
            lemma_diff_keys_gt(k, a, b.drop_first());
        }
    }
}

proof fn lemma_head_not_key(head: (Seq<u8>, ValueView), k: Seq<u8>)
    requires
        lex_lt(head.0, k),
    ensures
        head.0 != k,
{
    lemma_lex_lt_irrefl(head.0);
}

proof fn lemma_has_frame(head: (Seq<u8>, ValueView), d: Seq<(Seq<u8>, ValueView)>, k: Seq<u8>)
    requires
        lex_lt(head.0, k),
    ensures
        doc_has(seq![head] + d, k) == doc_has(d, k),
{
    lemma_head_not_key(head, k);
    let s = seq![head] + d;
    assert(forall|i: int| 0 <= i < d.len() ==> s[i + 1] == #[trigger] d[i]);
    if doc_has(d, k) {
        let i = choose|i: int| 0 <= i < d.len() && d[i].0 == k;
        assert(s[i + 1].0 == k);
    }
    if doc_has(s, k) {
        let i = choose|i: int| 0 <= i < s.len() && s[i].0 == k;
        assert(i != 0);
        assert(d[i - 1].0 == k);
    }
}

proof fn lemma_insert_frame(
    head: (Seq<u8>, ValueView),
    d: Seq<(Seq<u8>, ValueView)>,
    p: (Seq<u8>, ValueView),
)
    requires
        lex_lt(head.0, p.0),
    ensures
        sorted_insert_kv(seq![head] + d, p) == seq![head] + sorted_insert_kv(d, p),
{
    let s = seq![head] + d;
    assert(s[0] == head);
    assert(!lex_lt(p.0, head.0)) by {
        if lex_lt(p.0, head.0) {
            lemma_lex_lt_trans(head.0, p.0, head.0);
            lemma_lex_lt_irrefl(head.0);
        }
    }
    assert(s.drop_first() =~= d);
}

proof fn lemma_remove_frame(head: (Seq<u8>, ValueView), d: Seq<(Seq<u8>, ValueView)>, k: Seq<u8>)
    requires
        lex_lt(head.0, k),
    ensures
        remove_key(seq![head] + d, k) == seq![head] + remove_key(d, k),
{
    let s = seq![head] + d;
    lemma_head_not_key(head, k);
    assert(s[0] == head);
    assert(s.drop_first() =~= d);
}

proof fn lemma_replace_frame(
    head: (Seq<u8>, ValueView),
    d: Seq<(Seq<u8>, ValueView)>,
    k: Seq<u8>,
    v: ValueView,
)
    requires
        lex_lt(head.0, k),
    ensures
        replace_key(seq![head] + d, k, v) == seq![head] + replace_key(d, k, v),
{
    let s = seq![head] + d;
    lemma_head_not_key(head, k);
    assert(s[0] == head);
    assert(s.drop_first() =~= d);
}

proof fn lemma_apply_frame(
    head: (Seq<u8>, ValueView),
    d: Seq<(Seq<u8>, ValueView)>,
    ops: Seq<OpView>,
)
    requires
        ops_keys_gt(head.0, ops),
    ensures
        spec_apply(seq![head] + d, ops) == match spec_apply(d, ops) {
            None => None::<Seq<(Seq<u8>, ValueView)>>,
            Some(x) => Some(seq![head] + x),
        },
    decreases ops.len(),
{
    if ops.len() == 0 {
    } else {
        let op = ops[0];
        let k = op_key(op);
        assert(lex_lt(head.0, k));
        lemma_has_frame(head, d, k);
        match op {
            OpView::Add(kk, v) => {
                lemma_insert_frame(head, d, (kk, v));
            },
            OpView::Remove(kk) => {
                lemma_remove_frame(head, d, kk);
            },
            OpView::Replace(kk, v) => {
                lemma_replace_frame(head, d, kk, v);
            },
        }
        assert(forall|i: int| 0 <= i < ops.drop_first().len() ==> #[trigger] ops.drop_first()[i]
            == ops[i + 1]);
        match spec_apply_op(d, op) {
            None => {
                assert(spec_apply_op(seq![head] + d, op) is None);
            },
            Some(d2) => {
                assert(spec_apply_op(seq![head] + d, op) == Some(seq![head] + d2));
                lemma_apply_frame(head, d2, ops.drop_first());
            },
        }
    }
}

/// The difference of a document with itself is the empty patch.
pub proof fn lemma_diff_self(a: Seq<(Seq<u8>, ValueView)>)
    ensures
        spec_diff(a, a) == Seq::<OpView>::empty(),
    decreases a.len(),
{
    if a.len() > 0 {
        lemma_diff_self(a.drop_first());
    }
}

/// Applying `diff(a, b)` to `a` yields exactly `b`: the computed patch
/// always applies, and rebuilds the target document bit for bit.
pub proof fn lemma_diff_apply(a: Seq<(Seq<u8>, ValueView)>, b: Seq<(Seq<u8>, ValueView)>)
    requires
        doc_wf(a),
        doc_wf(b),
    ensures
        spec_apply(a, spec_diff(a, b)) == Some(b),
    decreases a.len() + b.len(),
{
    let ops = spec_diff(a, b);
    if a.len() == 0 && b.len() == 0 {
        assert(a =~= b);
    } else if a.len() == 0 {
        let b0 = b[0];
        lemma_wf_drop(b);
        let rest = spec_diff(a, b.drop_first());
        assert(ops == seq![OpView::Add(b0.0, b0.1)] + rest);
        assert(ops[0] == OpView::Add(b0.0, b0.1));
        assert(ops.drop_first() =~= rest);
        assert(!doc_has(a, b0.0));
        assert(sorted_insert_kv(a, (b0.0, b0.1)) =~= seq![(b0.0, b0.1)] + a);
        lemma_diff_keys_gt(b0.0, a, b.drop_first());
        lemma_apply_frame((b0.0, b0.1), a, rest);
        lemma_diff_apply(a, b.drop_first());
        assert((b0.0, b0.1) == b0);
        assert(seq![b0] + b.drop_first() =~= b);
        assert(seq![(b0.0, b0.1)] + a =~= seq![(b0.0, b0.1)] + a);
        assert(spec_apply(seq![(b0.0, b0.1)] + a, rest) == Some(seq![b0] + b.drop_first()));
    } else if b.len() == 0 {
        let a0 = a[0];
        lemma_wf_drop(a);
        let rest = spec_diff(a.drop_first(), b);
        assert(ops == seq![OpView::Remove(a0.0)] + rest);
        assert(ops[0] == OpView::Remove(a0.0));
        assert(ops.drop_first() =~= rest);
        assert(doc_has(a, a0.0));
        assert(remove_key(a, a0.0) == a.drop_first());
        lemma_diff_apply(a.drop_first(), b);
    } else {
        let a0 = a[0];
        let b0 = b[0];
        lemma_wf_drop(a);
        lemma_wf_drop(b);
        if a0.0 == b0.0 {
            if a0.1 == b0.1 {
                assert(a0 == b0);
                let rest = spec_diff(a.drop_first(), b.drop_first());
                assert(ops == rest);
                lemma_diff_keys_gt(a0.0, a.drop_first(), b.drop_first());
                lemma_apply_frame(a0, a.drop_first(), rest);
                lemma_diff_apply(a.drop_first(), b.drop_first());
                assert(seq![a0] + a.drop_first() =~= a);
                assert(seq![b0] + b.drop_first() =~= b);
                assert(spec_apply(a, ops) == Some(seq![a0] + b.drop_first()));
            } else {
                let rest = spec_diff(a.drop_first(), b.drop_first());
                assert(ops == seq![OpView::Replace(b0.0, b0.1)] + rest);
                assert(ops[0] == OpView::Replace(b0.0, b0.1));
                assert(ops.drop_first() =~= rest);
                assert(doc_has(a, b0.0));
                assert(replace_key(a, b0.0, b0.1) == seq![(b0.0, b0.1)] + a.drop_first());
                assert((b0.0, b0.1) == b0);
                lemma_diff_keys_gt(b0.0, a.drop_first(), b.drop_first());
                lemma_apply_frame(b0, a.drop_first(), rest);
                lemma_diff_apply(a.drop_first(), b.drop_first());
                assert(seq![b0] + b.drop_first() =~= b);
                assert(spec_apply(seq![b0] + a.drop_first(), rest) == Some(
                    seq![b0] + b.drop_first(),
                ));
            }
        } else if lex_lt(a0.0, b0.0) {
            let rest = spec_diff(a.drop_first(), b);
            assert(ops == seq![OpView::Remove(a0.0)] + rest);
            assert(ops[0] == OpView::Remove(a0.0));
            assert(ops.drop_first() =~= rest);
            assert(doc_has(a, a0.0));
            assert(remove_key(a, a0.0) == a.drop_first());
            lemma_diff_apply(a.drop_first(), b);
        } else {
            lemma_lex_lt_total(a0.0, b0.0);
            assert(lex_lt(b0.0, a0.0));
            let rest = spec_diff(a, b.drop_first());
            assert(ops == seq![OpView::Add(b0.0, b0.1)] + rest);
            assert(ops[0] == OpView::Add(b0.0, b0.1));
            assert(ops.drop_first() =~= rest);
            assert(!doc_has(a, b0.0)) by {
                if doc_has(a, b0.0) {
                    let i = choose|i: int| 0 <= i < a.len() && a[i].0 == b0.0;
                    if i == 0 {
                        lemma_lex_lt_irrefl(b0.0);
                    } else {
                        lemma_lex_lt_trans(b0.0, a0.0, a[i].0);
                        lemma_lex_lt_irrefl(b0.0);
                    }
                }
            }
            assert(sorted_insert_kv(a, (b0.0, b0.1)) == seq![(b0.0, b0.1)] + a);
            assert((b0.0, b0.1) == b0);
            assert(keys_all_gt(b0.0, a)) by {
                assert(forall|i: int| 1 <= i < a.len() ==> lex_lt(a0.0, #[trigger] a[i].0));
                assert forall|i: int| 0 <= i < a.len() implies lex_lt(b0.0, #[trigger] a[i].0) by {
                    if i > 0 {
                        lemma_lex_lt_trans(b0.0, a0.0, a[i].0);
                    }
                }
            }
            lemma_diff_keys_gt(b0.0, a, b.drop_first());
            lemma_apply_frame(b0, a, rest);
            lemma_diff_apply(a, b.drop_first());
            assert(seq![b0] + b.drop_first() =~= b);
            assert(spec_apply(seq![b0] + a, rest) == Some(seq![b0] + b.drop_first()));
        }
    }
}


// ---------------------------------------------------------------------------
// Executable apply

/// What makes a patch inapplicable.
#[derive(Clone, Debug)]
pub enum PatchError {
    /// An `Add` names a path that is already present.
    Exists(String),
    /// A `Remove` or `Replace` names a path that is absent.
    Missing(String),
}

/// First field with the path `k`, if any.
fn find_key(fields: &Vec<(String, Value)>, k: &[u8]) -> (r: Option<usize>)
    ensures
        match r {
            Some(i) => i < fields@.len() && fields_view(fields@)[i as int].0 == k@ && forall|
                j: int,
            | 0 <= j < i ==> fields_view(fields@)[j].0 != k@,
            None => forall|j: int| 0 <= j < fields@.len() ==> fields_view(fields@)[j].0 != k@,
        },
{
    let mut i: usize = 0;
    while i < fields.len()
        invariant
            i <= fields@.len(),
            forall|j: int| 0 <= j < i ==> fields_view(fields@)[j].0 != k@,
        decreases fields@.len() - i,
    {
        if bytes_eq(fields[i].0.as_str().as_bytes(), k) {
            assert(fields_view(fields@)[i as int].0 == k@);
            return Some(i);
        }
        assert(fields_view(fields@)[i as int].0 != k@);
        i = i + 1;
    }
    None
}

/// First position whose path is strictly greater than `k`.
fn insert_pos_kv(fields: &Vec<(String, Value)>, k: &[u8]) -> (i: usize)
    ensures
        i <= fields@.len(),
        forall|j: int| 0 <= j < i ==> !lex_lt(k@, fields_view(fields@)[j].0),
        i < fields@.len() ==> lex_lt(k@, fields_view(fields@)[i as int].0),
{
    let mut i: usize = 0;
    while i < fields.len()
        invariant
            i <= fields@.len(),
            forall|j: int| 0 <= j < i ==> !lex_lt(k@, fields_view(fields@)[j].0),
        decreases fields@.len() - i,
    {
        if bytes_lt(k, fields[i].0.as_str().as_bytes()) {
            assert(lex_lt(k@, fields_view(fields@)[i as int].0));
            return i;
        }
        assert(!lex_lt(k@, fields_view(fields@)[i as int].0));
        i = i + 1;
    }
    i
}

proof fn lemma_sorted_insert_kv_at(
    d: Seq<(Seq<u8>, ValueView)>,
    p: (Seq<u8>, ValueView),
    i: int,
)
    requires
        0 <= i <= d.len(),
        forall|j: int| 0 <= j < i ==> !lex_lt(p.0, d[j].0),
        i < d.len() ==> lex_lt(p.0, d[i as int].0),
    ensures
        sorted_insert_kv(d, p) == d.take(i) + seq![p] + d.skip(i),
    decreases d.len(),
{
    if d.len() == 0 {
        assert(sorted_insert_kv(d, p) =~= d.take(i) + seq![p] + d.skip(i));
    } else if lex_lt(p.0, d[0].0) {
        assert(i == 0);
        assert(d.take(0) =~= Seq::<(Seq<u8>, ValueView)>::empty());
        assert(d.skip(0) =~= d);
        assert(sorted_insert_kv(d, p) =~= d.take(i) + seq![p] + d.skip(i));
    } else {
        assert(i >= 1);
        let rest = d.drop_first();
        assert(forall|j: int| 0 <= j < i - 1 ==> rest[j] == d[j + 1]);
        lemma_sorted_insert_kv_at(rest, p, i - 1);
        assert(rest.take(i - 1) =~= d.take(i).drop_first());
        assert(rest.skip(i - 1) =~= d.skip(i));
        assert(seq![d[0]] + (rest.take(i - 1) + seq![p] + rest.skip(i - 1)) =~= d.take(i)
            + seq![p] + d.skip(i));
    }
}

proof fn lemma_remove_key_at(d: Seq<(Seq<u8>, ValueView)>, k: Seq<u8>, i: int)
    requires
        0 <= i < d.len(),
        d[i].0 == k,
        forall|j: int| 0 <= j < i ==> d[j].0 != k,
    ensures
        remove_key(d, k) == d.take(i) + d.skip(i + 1),
    decreases d.len(),
{
    if d[0].0 == k {
        assert(i == 0);
        assert(remove_key(d, k) =~= d.take(0) + d.skip(1));
    } else {
        assert(i >= 1);
        let rest = d.drop_first();
        assert(forall|j: int| 0 <= j < rest.len() ==> rest[j] == d[j + 1]);
        lemma_remove_key_at(rest, k, i - 1);
        assert(rest.take(i - 1) =~= d.take(i).drop_first());
        assert(rest.skip(i) =~= d.skip(i + 1));
        assert(seq![d[0]] + (rest.take(i - 1) + rest.skip(i)) =~= d.take(i) + d.skip(i + 1));
    }
}

proof fn lemma_replace_key_at(d: Seq<(Seq<u8>, ValueView)>, k: Seq<u8>, v: ValueView, i: int)
    requires
        0 <= i < d.len(),
        d[i].0 == k,
        forall|j: int| 0 <= j < i ==> d[j].0 != k,
    ensures
        replace_key(d, k, v) == d.take(i) + seq![(k, v)] + d.skip(i + 1),
    decreases d.len(),
{
    if d[0].0 == k {
        assert(i == 0);
        assert(replace_key(d, k, v) =~= d.take(0) + seq![(k, v)] + d.skip(1));
    } else {
        assert(i >= 1);
        let rest = d.drop_first();
        assert(forall|j: int| 0 <= j < rest.len() ==> rest[j] == d[j + 1]);
        lemma_replace_key_at(rest, k, v, i - 1);
        assert(rest.take(i - 1) =~= d.take(i).drop_first());
        assert(rest.skip(i) =~= d.skip(i + 1));
        assert(seq![d[0]] + (rest.take(i - 1) + seq![(k, v)] + rest.skip(i)) =~= d.take(i)
            + seq![(k, v)] + d.skip(i + 1));
    }
}

/// A copy of the fields with the same content.
fn dup_fields(fields: &Vec<(String, Value)>) -> (r: Vec<(String, Value)>)
    ensures
        fields_view(r@) == fields_view(fields@),
{
    let mut out: Vec<(String, Value)> = Vec::new();
    let mut i: usize = 0;
    while i < fields.len()
        invariant
            i <= fields@.len(),
            fields_view(out@) == fields_view(fields@).take(i as int),
        decreases fields@.len() - i,
    {
        let ghost before = fields_view(out@);
        out.push((fields[i].0.clone(), fields[i].1.duplicate()));
        proof {
            assert(fields_view(out@) =~= before.push(fields_view(fields@)[i as int]));
            assert(fields_view(fields@).take(i + 1) =~= before.push(
                fields_view(fields@)[i as int],
            ));
        }
        i = i + 1;
    }
    proof {
        assert(fields_view(fields@).take(fields@.len() as int) =~= fields_view(fields@));
    }
    out
}

/// Applies a patch to a document, operation by operation.  Succeeds
/// exactly when every operation applies: each `Add` names an absent path
/// and each `Remove` or `Replace` a present one.
pub fn apply(doc: &Document, p: &Patch) -> (r: Result<Document, PatchError>)
    ensures
        (r matches Ok(d) ==> spec_apply(doc@, p@) == Some(d@)),
        r is Err ==> spec_apply(doc@, p@) is None,
{
    let mut cur = dup_fields(&doc.fields);
    let mut i: usize = 0;
    proof {
        assert(p@.skip(0) =~= p@);
    }
    while i < p.ops.len()
        invariant
            i <= p@.len(),
            p@.len() == p.ops@.len(),
            spec_apply(doc@, p@) == spec_apply(fields_view(cur@), p@.skip(i as int)),
        decreases p@.len() - i,
    {
        let ghost curv = fields_view(cur@);
        let ghost rem = p@.skip(i as int);
        proof {
            assert(rem[0] == p@[i as int]);
            assert(rem.drop_first() =~= p@.skip(i + 1));
        }
        match &p.ops[i] {
            PatchOp::Add(k, v) => {
                let kb = k.as_str().as_bytes();
                match find_key(&cur, kb) {
                    Some(_) => {
                        proof {
                            assert(doc_has(curv, kb@));
                            assert(spec_apply_op(curv, rem[0]) is None);
                        }
                        return Err(PatchError::Exists(k.clone()));
                    },
                    None => {
                        proof {
                            assert(!doc_has(curv, kb@)) by {
                                if doc_has(curv, kb@) {
                                    let ix = choose|ix: int|
                                        0 <= ix < curv.len() && curv[ix].0 == kb@;
                                    assert(fields_view(cur@)[ix].0 == kb@);
                                }
                            }
                        }
                        let pos = insert_pos_kv(&cur, kb);
                        proof {
                            lemma_sorted_insert_kv_at(curv, (kb@, v@), pos as int);
                        }
                        cur.insert(pos, (k.clone(), v.duplicate()));
                        proof {
                            assert(fields_view(cur@) =~= curv.take(pos as int) + seq![(kb@, v@)]
                                + curv.skip(pos as int));
                            assert(spec_apply_op(curv, rem[0]) == Some(fields_view(cur@)));
                        }
                    },
                }
            },
            PatchOp::Remove(k) => {
                let kb = k.as_str().as_bytes();
                match find_key(&cur, kb) {
                    None => {
                        proof {
                            assert(!doc_has(curv, kb@)) by {
                                if doc_has(curv, kb@) {
                                    let ix = choose|ix: int|
                                        0 <= ix < curv.len() && curv[ix].0 == kb@;
                                    assert(fields_view(cur@)[ix].0 == kb@);
                                }
                            }
                            assert(spec_apply_op(curv, rem[0]) is None);
                        }
                        return Err(PatchError::Missing(k.clone()));
                    },
                    Some(idx) => {
                        proof {
                            assert(doc_has(curv, kb@));
                            lemma_remove_key_at(curv, kb@, idx as int);
                        }
                        cur.remove(idx);
                        proof {
                            assert(fields_view(cur@) =~= curv.take(idx as int) + curv.skip(
                                idx + 1,
                            ));
                            assert(spec_apply_op(curv, rem[0]) == Some(fields_view(cur@)));
                        }
                    },
                }
            },
            PatchOp::Replace(k, v) => {
                let kb = k.as_str().as_bytes();
                match find_key(&cur, kb) {
                    None => {
                        proof {
                            assert(!doc_has(curv, kb@)) by {
                                if doc_has(curv, kb@) {
                                    let ix = choose|ix: int|
                                        0 <= ix < curv.len() && curv[ix].0 == kb@;
                                    assert(fields_view(cur@)[ix].0 == kb@);
                                }
                            }
                            assert(spec_apply_op(curv, rem[0]) is None);
                        }
                        return Err(PatchError::Missing(k.clone()));
                    },
                    Some(idx) => {
                        proof {
                            assert(doc_has(curv, kb@));
                            lemma_replace_key_at(curv, kb@, v@, idx as int);
                        }
                        cur.remove(idx);
                        cur.insert(idx, (k.clone(), v.duplicate()));
                        proof {
                            assert(fields_view(cur@) =~= curv.take(idx as int) + seq![(kb@, v@)]
                                + curv.skip(idx + 1));
                            assert(spec_apply_op(curv, rem[0]) == Some(fields_view(cur@)));
                        }
                    },
                }
            },
        }
        i = i + 1;
    }
    proof {
        assert(p@.skip(p@.len() as int) =~= Seq::<OpView>::empty());
    }
    Ok(Document { fields: cur })
}


// ---------------------------------------------------------------------------
// Building documents

proof fn lemma_insert_wf(d: Seq<(Seq<u8>, ValueView)>, p: (Seq<u8>, ValueView), i: int)
    requires
        doc_wf(d),
        !doc_has(d, p.0),
        0 <= i <= d.len(),
        forall|j: int| 0 <= j < i ==> !lex_lt(p.0, d[j].0),
        i < d.len() ==> lex_lt(p.0, d[i as int].0),
    ensures
        doc_wf(d.take(i) + seq![p] + d.skip(i)),
{
    let r = d.take(i) + seq![p] + d.skip(i);
    assert(forall|x: int| 0 <= x < i ==> r[x] == d[x]);
    assert(r[i as int] == p);
    assert(forall|x: int| i < x < r.len() ==> r[x] == d[x - 1]);
    assert forall|x: int| 0 <= x < i implies lex_lt(#[trigger] d[x].0, p.0) by {
        assert(d[x].0 != p.0);
        lemma_lex_lt_total(p.0, d[x].0);
    }
    assert forall|x: int, y: int| 0 <= x < y < r.len() implies lex_lt(
        #[trigger] r[x].0,
        #[trigger] r[y].0,
    ) by {
        if y < i {
        } else if y == i {
            assert(lex_lt(d[x].0, p.0));
        } else if x < i {
            if y - 1 == i {
                // r[y] == d[i], and p.0 < d[i].0
                assert(lex_lt(d[x].0, p.0));
                lemma_lex_lt_trans(d[x].0, p.0, d[i as int].0);
            } else {
                assert(lex_lt(d[x].0, d[y - 1].0));
            }
        } else if x == i {
            assert(lex_lt(p.0, d[i as int].0));
            if y - 1 == i {
            } else {
                assert(lex_lt(d[i as int].0, d[y - 1].0));
                lemma_lex_lt_trans(p.0, d[i as int].0, d[y - 1].0);
            }
        } else {
            assert(lex_lt(d[x - 1].0, d[y - 1].0));
        }
    }
}

proof fn lemma_replace_wf(d: Seq<(Seq<u8>, ValueView)>, k: Seq<u8>, v: ValueView, i: int)
    requires
        doc_wf(d),
        0 <= i < d.len(),
        d[i].0 == k,
    ensures
        doc_wf(d.take(i) + seq![(k, v)] + d.skip(i + 1)),
{
    let r = d.take(i) + seq![(k, v)] + d.skip(i + 1);
    assert(r.len() == d.len());
    assert(forall|x: int| 0 <= x < r.len() ==> #[trigger] r[x].0 == d[x].0);
}

impl Document {
    /// The empty document.
    pub fn new() -> (d: Document)
        ensures
            d@ == Seq::<(Seq<u8>, ValueView)>::empty(),
            doc_wf(d@),
    {
        let d = Document { fields: Vec::new() };
        proof {
            assert(d@ =~= Seq::<(Seq<u8>, ValueView)>::empty());
        }
        d
    }

    /// The value stored under `key`, if any.
    pub fn get(&self, key: &str) -> (r: Option<&Value>)
        ensures
            r is Some <==> doc_has(self@, encode_utf8(key@)),
            (r matches Some(v) ==> exists|i: int|
                0 <= i < self@.len() && #[trigger] self@[i].0 == encode_utf8(key@) && self@[i].1
                    == v@),
    {
        match find_key(&self.fields, key.as_bytes()) {
            Some(i) => {
                proof {
                    assert(self@[i as int].0 == encode_utf8(key@));
                }
                Some(&self.fields[i].1)
            },
            None => {
                proof {
                    assert(!doc_has(self@, encode_utf8(key@))) by {
                        if doc_has(self@, encode_utf8(key@)) {
                            let ix = choose|ix: int|
                                0 <= ix < self@.len() && self@[ix].0 == encode_utf8(key@);
                            assert(fields_view(self.fields@)[ix].0 == encode_utf8(key@));
                        }
                    }
                }
                None
            },
        }
    }

    /// Stores `value` under `key`, replacing any value already there; the
    /// fields stay sorted by path.
    pub fn set(&mut self, key: &str, value: Value)
        requires
            doc_wf(old(self)@),
        ensures
            doc_wf(final(self)@),
            final(self)@ == if doc_has(old(self)@, encode_utf8(key@)) {
                replace_key(old(self)@, encode_utf8(key@), value@)
            } else {
                sorted_insert_kv(old(self)@, (encode_utf8(key@), value@))
            },
    {
        let ghost curv = self@;
        let kb = key.as_bytes();
        match find_key(&self.fields, kb) {
            Some(idx) => {
                proof {
                    assert(doc_has(curv, kb@));
                    lemma_replace_key_at(curv, kb@, value@, idx as int);
                    lemma_replace_wf(curv, kb@, value@, idx as int);
                }
                self.fields.remove(idx);
                self.fields.insert(idx, (key.to_owned(), value));
                proof {
                    assert(fields_view(self.fields@) =~= curv.take(idx as int) + seq![
                        (kb@, value@),
                    ] + curv.skip(idx + 1));
                }
            },
            None => {
                proof {
                    assert(!doc_has(curv, kb@)) by {
                        if doc_has(curv, kb@) {
                            let ix = choose|ix: int| 0 <= ix < curv.len() && curv[ix].0 == kb@;
                            assert(fields_view(self.fields@)[ix].0 == kb@);
                        }
                    }
                }
                let pos = insert_pos_kv(&self.fields, kb);
                proof {
                    lemma_sorted_insert_kv_at(curv, (kb@, value@), pos as int);
                    lemma_insert_wf(curv, (kb@, value@), pos as int);
                }
                self.fields.insert(pos, (key.to_owned(), value));
                proof {
                    assert(fields_view(self.fields@) =~= curv.take(pos as int) + seq![
                        (kb@, value@),
                    ] + curv.skip(pos as int));
                }
            },
        }
    }
}


// ---------------------------------------------------------------------------
// Text fields

/// The text-valued fields of a document, in order: each path with the
/// content of its `Str` value; fields of other shapes are left out.
pub open spec fn str_fields(d: Seq<(Seq<u8>, ValueView)>) -> Seq<(Seq<u8>, Seq<char>)>
    decreases d.len(),
{
    if d.len() == 0 {
        Seq::empty()
    } else {
        let rest = str_fields(d.drop_last());
        match d.last().1 {
            ValueView::Str(s) => rest.push((d.last().0, s)),
            _ => rest,
        }
    }
}

/// Text pairs at the spec level: each path as bytes beside its text.
pub open spec fn pairs_text_view(s: Seq<(String, String)>) -> Seq<(Seq<u8>, Seq<char>)> {
    s.map(|_i: int, p: (String, String)| (encode_utf8(p.0@), p.1@))
}

/// The text-valued fields of a document, as key/value text pairs.
pub fn to_pairs(d: &Document) -> (r: Vec<(String, String)>)
    ensures
        pairs_text_view(r@) == str_fields(d@),
{
    let ghost pview = |_i: int, p: (String, String)| (encode_utf8(p.0@), p.1@);
    let mut out: Vec<(String, String)> = Vec::new();
    let mut i: usize = 0;
    proof {
        assert(d@.take(0) =~= Seq::<(Seq<u8>, ValueView)>::empty());
        assert(out@.map(pview) =~= str_fields(d@.take(0)));
    }
    while i < d.fields.len()
        invariant
            i <= d.fields@.len(),
            d@.len() == d.fields@.len(),
            out@.map(pview) == str_fields(d@.take(i as int)),
            pview == (|_i: int, p: (String, String)| (encode_utf8(p.0@), p.1@)),
        decreases d.fields@.len() - i,
    {
        let ghost before = out@.map(pview);
        proof {
            assert(d@.take(i + 1).drop_last() =~= d@.take(i as int));
            assert(d@.take(i + 1).last() == d@[i as int]);
            assert(d@[i as int] == field_view(d.fields@[i as int]));
        }
        match &d.fields[i].1 {
            Value::Str(v) => {
                out.push((d.fields[i].0.clone(), v.clone()));
                proof {
                    assert(out@.map(pview) =~= before.push(
                        (d@[i as int].0, d@[i as int].1->Str_0),
                    ));
                }
            },
            _ => {},
        }
        i = i + 1;
    }
    proof {
        assert(d@.take(d@.len() as int) =~= d@);
    }
    out
}


/// Every text field of a document traces back to a field of the document
/// with the same path and content.
pub proof fn lemma_str_fields_keys(d: Seq<(Seq<u8>, ValueView)>)
    ensures
        forall|i: int| 0 <= i < str_fields(d).len() ==> exists|j: int|
            0 <= j < d.len() && d[j].0 == (#[trigger] str_fields(d)[i]).0 && d[j].1
                == ValueView::Str(str_fields(d)[i].1),
    decreases d.len(),
{
    if d.len() > 0 {
        let rest = str_fields(d.drop_last());
        lemma_str_fields_keys(d.drop_last());
        assert(forall|j: int| 0 <= j < d.len() - 1 ==> #[trigger] d.drop_last()[j] == d[j]);
        assert forall|i: int| 0 <= i < str_fields(d).len() implies exists|j: int|
            0 <= j < d.len() && d[j].0 == (#[trigger] str_fields(d)[i]).0 && d[j].1
                == ValueView::Str(str_fields(d)[i].1) by {
            if i < rest.len() {
                assert(str_fields(d)[i] == rest[i]);
                let j = choose|j: int|
                    0 <= j < d.drop_last().len() && d.drop_last()[j].0 == rest[i].0
                        && d.drop_last()[j].1 == ValueView::Str(rest[i].1);
                assert(d[j].0 == str_fields(d)[i].0 && d[j].1 == ValueView::Str(
                    str_fields(d)[i].1,
                ));
            } else {
                assert(d[d.len() - 1].0 == str_fields(d)[i].0 && d[d.len() - 1].1
                    == ValueView::Str(str_fields(d)[i].1));
            }
        }
    }
}

/// The computed patch is empty exactly when the two documents are equal.
pub proof fn lemma_diff_empty_iff(a: Seq<(Seq<u8>, ValueView)>, b: Seq<(Seq<u8>, ValueView)>)
    requires
        doc_wf(a),
        doc_wf(b),
    ensures
        spec_diff(a, b).len() == 0 <==> a == b,
{
    if a == b {
        lemma_diff_self(a);
    }
    if spec_diff(a, b).len() == 0 {
        lemma_diff_apply(a, b);
        assert(spec_apply(a, spec_diff(a, b)) == Some(a));
    }
}

} // verus!
