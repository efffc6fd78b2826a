//! The snapshot store: three parallel trees of PNG blobs keyed by snapshot id,
//! with the lifecycle rules of what each operation writes and removes.
//! The operations are planned here; they are carried out on disk by the caller.
use vstd::prelude::*;

use crate::text::push_char;

verus! {

/// Root directory of the store, under the working directory.
pub const BASE_DIR: &'static str = ".snapvrt";

/// One of the three trees of the store.
#[derive(Debug, Clone, Copy, PartialEq, Eq, Structural)]
pub enum Tree {
    /// Last-approved blobs.
    Reference,
    /// Blobs from the latest failing or new run.
    Current,
    /// Visual diff images of failed comparisons.
    Difference,
}

impl Tree {
    /// Directory name of the tree under the store root.
    pub open spec fn dir_name(self) -> Seq<char> {
        match self {
            Tree::Reference => "reference"@,
            Tree::Current => "current"@,
            Tree::Difference => "difference"@,
        }
    }

    /// Directory name of the tree under the store root.
    pub fn dir(self) -> (r: &'static str)
        ensures
            r@ == self.dir_name(),
    {
        match self {
            Tree::Reference => "reference",
            Tree::Current => "current",
            Tree::Difference => "difference",
        }
    }
}

/// Whether a store operation writes or removes a blob.
#[derive(Debug, Clone, Copy, PartialEq, Eq, Structural)]
pub enum OpKind {
    Write,
    Remove,
}

/// One store operation on the blob of `id` in `tree`. What a write stores is
/// fixed by the tree: the capture in `Current`, the diff image in
/// `Difference`, the approved bytes in `Reference`.
pub struct StoreOp {
    pub kind: OpKind,
    pub tree: Tree,
    pub id: String,
}

/// The blobs held by the store, one map per tree.
pub struct Snapshots {
    pub reference: Map<Seq<char>, Seq<u8>>,
    pub current: Map<Seq<char>, Seq<u8>>,
    pub difference: Map<Seq<char>, Seq<u8>>,
}

/// The bytes that writes to each tree store.
pub struct Payload {
    pub reference: Seq<u8>,
    pub current: Seq<u8>,
    pub difference: Seq<u8>,
}

/// A store operation as plain values: kind, tree and id.
pub open spec fn op_model(op: StoreOp) -> (OpKind, Tree, Seq<char>) {
    (op.kind, op.tree, op.id@)
}

/// A list of store operations as plain values.
pub open spec fn ops_model(ops: Seq<StoreOp>) -> Seq<(OpKind, Tree, Seq<char>)> {
    ops.map_values(|op: StoreOp| op_model(op))
}

/// One tree's map after writing `bytes` or removing the blob at `id`.
pub open spec fn apply_tree(
    m: Map<Seq<char>, Seq<u8>>,
    kind: OpKind,
    id: Seq<char>,
    bytes: Seq<u8>,
) -> Map<Seq<char>, Seq<u8>> {
    match kind {
        OpKind::Write => m.insert(id, bytes),
        OpKind::Remove => m.remove(id),
    }
}

/// The store after one operation.
pub open spec fn apply_op(s: Snapshots, op: (OpKind, Tree, Seq<char>), p: Payload) -> Snapshots {
    match op.1 {
        Tree::Reference => Snapshots {
            reference: apply_tree(s.reference, op.0, op.2, p.reference),
            ..s
        },
        Tree::Current => Snapshots { current: apply_tree(s.current, op.0, op.2, p.current), ..s },
        Tree::Difference => Snapshots {
            difference: apply_tree(s.difference, op.0, op.2, p.difference),
            ..s
        },
    }
}

/// The store after a list of operations, in order.
pub open spec fn apply_ops(s: Snapshots, ops: Seq<(OpKind, Tree, Seq<char>)>, p: Payload) -> Snapshots
    decreases ops.len(),
{
    if ops.len() == 0 {
        s
    } else {
        apply_ops(apply_op(s, ops[0], p), ops.drop_first(), p)
    }
}

/// The store holds a diff image for `id`.
pub open spec fn has_difference_in(s: Snapshots, id: Seq<char>) -> bool {
    s.difference.contains_key(id)
}

/// The operations of writing a reference: the blob is stored and any stale
/// current and difference blobs of the same id go.
pub open spec fn reference_write_plan(id: Seq<char>) -> Seq<(OpKind, Tree, Seq<char>)> {
    seq![
        (OpKind::Write, Tree::Reference, id),
        (OpKind::Remove, Tree::Current, id),
        (OpKind::Remove, Tree::Difference, id),
    ]
}

/// The operations that clear the outputs of one id.
pub open spec fn clean_output_plan(id: Seq<char>) -> Seq<(OpKind, Tree, Seq<char>)> {
    seq![(OpKind::Remove, Tree::Current, id), (OpKind::Remove, Tree::Difference, id)]
}

/// An operation on a copy of `id`.
pub fn op(kind: OpKind, tree: Tree, id: &str) -> (r: StoreOp)
    ensures
        op_model(r) == (kind, tree, id@),
{
    StoreOp { kind, tree, id: String::from_str(id) }
}

/// Plan the writing of a reference blob for `id`.
pub fn write_reference(id: &str) -> (r: Vec<StoreOp>)
    ensures
        ops_model(r@) == reference_write_plan(id@),
{
    let r = vec![
        op(OpKind::Write, Tree::Reference, id),
        op(OpKind::Remove, Tree::Current, id),
        op(OpKind::Remove, Tree::Difference, id),
    ];
    assert(ops_model(r@) =~= reference_write_plan(id@));
    r
}

/// Plan the removal of the current and difference blobs of `id`.
pub fn clean_output(id: &str) -> (r: Vec<StoreOp>)
    ensures
        ops_model(r@) == clean_output_plan(id@),
{
    let r = vec![op(OpKind::Remove, Tree::Current, id), op(OpKind::Remove, Tree::Difference, id)];
    assert(ops_model(r@) =~= clean_output_plan(id@));
    r
}

/// Plan the removal of the current and difference blobs of every id given.
pub fn clean_output_files(ids: &Vec<String>) -> (r: Vec<StoreOp>)
    ensures
        r@.len() == 2 * ids@.len(),
        forall|i: int|
            0 <= i < ids@.len() ==> ops_model(r@).subrange(2 * i, 2 * i + 2) == clean_output_plan(
                #[trigger] ids@[i]@,
            ),
{
    let mut r: Vec<StoreOp> = Vec::new();
    let mut i: usize = 0;
    while i < ids.len()
        invariant
            i <= ids.len(),
            r@.len() == 2 * i,
            forall|k: int|
                0 <= k < i ==> ops_model(r@).subrange(2 * k, 2 * k + 2) == clean_output_plan(
                    #[trigger] ids@[k]@,
                ),
        decreases ids.len() - i,
    {
        let ghost before = r@;
        r.push(op(OpKind::Remove, Tree::Current, ids[i].as_str()));
        r.push(op(OpKind::Remove, Tree::Difference, ids[i].as_str()));
        assert forall|k: int| 0 <= k < i + 1 implies ops_model(r@).subrange(2 * k, 2 * k + 2)
            == clean_output_plan(#[trigger] ids@[k]@) by {
            if k < i {
                assert(ops_model(r@).subrange(2 * k, 2 * k + 2) =~= ops_model(before).subrange(
                    2 * k,
                    2 * k + 2,
                ));
            } else {
                assert(ops_model(r@).subrange(2 * k, 2 * k + 2) =~= clean_output_plan(ids@[k]@));
            }
        }
        i += 1;
    }
    r
}

/// The path of the blob of `id` in `tree`.
pub open spec fn blob_path(tree: Tree, id: Seq<char>) -> Seq<char> {
    BASE_DIR@ + seq!['/'] + tree.dir_name() + seq!['/'] + id + ".png"@
}

/// The path of the blob of `id` in `tree`: `.snapvrt/<tree>/<id>.png`.
pub fn file_path(tree: Tree, id: &str) -> (r: String)
    ensures
        r@ == blob_path(tree, id@),
{
    let mut out = String::from_str(BASE_DIR);
    push_char(&mut out, '/');
    out.append(tree.dir());
    push_char(&mut out, '/');
    out.append(id);
    out.append(".png");
    out
}

/// Writing a reference leaves no diff image and no current blob for that id,
/// and the reference holds the bytes written.
pub proof fn lemma_reference_write_clears_outputs(s: Snapshots, id: Seq<char>, p: Payload)
    ensures
        !has_difference_in(apply_ops(s, reference_write_plan(id), p), id),
        !apply_ops(s, reference_write_plan(id), p).current.contains_key(id),
        apply_ops(s, reference_write_plan(id), p).reference.contains_key(id),
        apply_ops(s, reference_write_plan(id), p).reference[id] == p.reference,
{
    let plan = reference_write_plan(id);
    let s1 = apply_op(s, plan[0], p);
    let s2 = apply_op(s1, plan[1], p);
    let s3 = apply_op(s2, plan[2], p);
    assert(plan.drop_first().drop_first().drop_first().len() == 0);
    assert(plan.drop_first()[0] == plan[1]);
    assert(plan.drop_first().drop_first()[0] == plan[2]);
    assert(apply_ops(s2, plan.drop_first().drop_first(), p) == apply_ops(s3, plan.drop_first().drop_first().drop_first(), p));
    assert(apply_ops(s1, plan.drop_first(), p) == apply_ops(s2, plan.drop_first().drop_first(), p));
    assert(apply_ops(s, plan, p) == apply_ops(s1, plan.drop_first(), p));
}

/// Cleaning the outputs of an id leaves neither a current blob nor a diff image.
pub proof fn lemma_clean_output_clears(s: Snapshots, id: Seq<char>, p: Payload)
    ensures
        !has_difference_in(apply_ops(s, clean_output_plan(id), p), id),
        !apply_ops(s, clean_output_plan(id), p).current.contains_key(id),
        apply_ops(s, clean_output_plan(id), p).reference == s.reference,
{
    let plan = clean_output_plan(id);
    let s1 = apply_op(s, plan[0], p);
    let s2 = apply_op(s1, plan[1], p);
    assert(plan.drop_first().drop_first().len() == 0);
    assert(plan.drop_first()[0] == plan[1]);
    assert(apply_ops(s1, plan.drop_first(), p) == apply_ops(s2, plan.drop_first().drop_first(), p));
    assert(apply_ops(s, plan, p) == apply_ops(s1, plan.drop_first(), p));
}

} // verus!
