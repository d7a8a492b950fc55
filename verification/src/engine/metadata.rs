//! Parquet metadata: the schema tree, row groups and key-value entries.
use vstd::prelude::*;

verus! {

/// A node in the parquet schema tree.
#[derive(Debug)]
pub struct SchemaNode {
    pub name: String,
    pub path: String,
    pub type_label: String,
    pub repetition_type: String,
    pub num_children: i64,
    pub children: Vec<SchemaNode>,
}

/// One row of `parquet_schema`, in the order the schema lists its nodes (depth first).
#[derive(Debug, Clone)]
pub struct SchemaRow {
    pub name: String,
    pub path: String,
    pub type_label: String,
    pub repetition_type: String,
    pub num_children: Option<i64>,
}

/// Row group metadata.
#[derive(Debug, Clone)]
pub struct RowGroupInfo {
    pub row_group_id: i64,
    pub row_num: i64,
    pub total_byte_size: i64,
    pub total_compressed_size: i64,
}

/// Key-value metadata entry.
#[derive(Debug, Clone)]
pub struct KvMetadata {
    pub key: String,
    pub value: String,
}

/// Full metadata for a parquet file/folder.
#[derive(Debug)]
pub struct ParquetMetadata {
    pub schema_tree: SchemaNode,
    pub row_groups: Vec<RowGroupInfo>,
    pub kv_metadata: Vec<KvMetadata>,
}

/// Errors in building the schema tree.
#[derive(Debug, Clone, Copy, PartialEq, Eq, Structural)]
pub enum MetadataError {
    /// `parquet_schema` listed no node.
    EmptySchema,
}

impl MetadataError {
    pub fn message(&self) -> (s: String)
        ensures
            s@ == "Failed to retrieve parquet schema"@,
    {
        String::from_str("Failed to retrieve parquet schema")
    }
}

/// What a node says of itself, children aside.
pub type NodeInfo = (Seq<char>, Seq<char>, Seq<char>, Seq<char>, i64);

pub open spec fn info(n: SchemaNode) -> NodeInfo {
    (n.name@, n.path@, n.type_label@, n.repetition_type@, n.num_children)
}

/// What a schema row says of its node; a missing child count counts as zero.
pub open spec fn row_info(r: SchemaRow) -> NodeInfo {
    (r.name@, r.path@, r.type_label@, r.repetition_type@, match r.num_children {
        Some(n) => n,
        None => 0,
    })
}

pub open spec fn rows_info(rows: Seq<SchemaRow>) -> Seq<NodeInfo> {
    rows.map_values(|r: SchemaRow| row_info(r))
}

/// The nodes of a tree in depth-first order.
pub open spec fn flat(n: SchemaNode) -> Seq<NodeInfo>
    decreases n, 1int,
{
    seq![info(n)] + flat_all(n.children@)
}

/// The nodes of a sequence of trees in depth-first order.
pub open spec fn flat_all(s: Seq<SchemaNode>) -> Seq<NodeInfo>
    decreases s, 0int,
{
    if s.len() == 0 {
        seq![]
    } else {
        flat_all(s.drop_last()) + flat(s.last())
    }
}

/// How many children a node asks for (`num_children as usize`).
pub open spec fn wanted(n: SchemaNode) -> int {
    (n.num_children as usize) as int
}

/// A subtree that got every child it asked for, at every depth. Below the root, a node
/// with no positive child count has no children.
pub open spec fn full(n: SchemaNode) -> bool
    decreases n,
{
    &&& n.children@.len() == wanted(n)
    &&& forall|i: int|
        0 <= i < n.children@.len() ==> {
            let c = #[trigger] n.children@[i];
            &&& c.num_children > 0 ==> full(c)
            &&& c.num_children <= 0 ==> c.children@.len() == 0
        }
}

/// A subtree filled child by child until the rows ran out: each node has at most the
/// children it asked for, all of them full but the last, which is filled the same way.
pub open spec fn greedy(n: SchemaNode) -> bool
    decreases n,
{
    &&& n.children@.len() <= wanted(n)
    &&& forall|i: int|
        0 <= i < n.children@.len() - 1 ==> {
            let c = #[trigger] n.children@[i];
            &&& c.num_children > 0 ==> full(c)
            &&& c.num_children <= 0 ==> c.children@.len() == 0
        }
    &&& n.children@.len() > 0 ==> {
        let c = n.children@.last();
        &&& c.num_children > 0 ==> greedy(c)
        &&& c.num_children <= 0 ==> c.children@.len() == 0
    }
}

pub proof fn lemma_full_is_greedy(n: SchemaNode)
    requires
        full(n),
    ensures
        greedy(n),
    decreases n,
{
    if n.children@.len() > 0 {
        let c = n.children@.last();
        assert(n.children@[n.children@.len() - 1] == c);
        if c.num_children > 0 {
            lemma_full_is_greedy(c);
        }
    }
}

/// A node of the tree, without children, from its schema row.
pub fn node_of_row(r: &SchemaRow) -> (n: SchemaNode)
    ensures
        info(n) == row_info(*r),
        n.children@.len() == 0,
{
    SchemaNode {
        name: r.name.clone(),
        path: r.path.clone(),
        type_label: r.type_label.clone(),
        repetition_type: r.repetition_type.clone(),
        num_children: match r.num_children {
            Some(n) => n,
            None => 0,
        },
        children: Vec::new(),
    }
}

pub proof fn lemma_flat_all_push(s: Seq<SchemaNode>, c: SchemaNode)
    ensures
        flat_all(s.push(c)) == flat_all(s) + flat(c),
{
    assert(s.push(c).drop_last() =~= s);
}

/// Builds the subtree of a node without children from the rows after `*pos`, depth
/// first: the node takes as many children as it asks for (`num_children as usize`), each
/// child with a positive count takes its own children the same way, and it all stops
/// when the rows run out.
fn grow_tree(parent: SchemaNode, rows: &Vec<SchemaRow>, pos: &mut usize) -> (tree:
    SchemaNode)
    requires
        parent.children@.len() == 0,
        *old(pos) <= rows@.len(),
    ensures
        *old(pos) <= *final(pos) <= rows@.len(),
        info(tree) == info(parent),
        flat(tree) == seq![info(parent)] + rows_info(
            rows@.subrange(*old(pos) as int, *final(pos) as int),
        ),
        greedy(tree),
        *final(pos) < rows@.len() ==> full(tree),
    decreases rows@.len() - *old(pos),
{
    let ghost start = *pos;
    let ghost pinfo = info(parent);
    let mut parent = parent;
    let target = parent.num_children as usize;
    let mut k: usize = 0;
    assert(rows@.subrange(start as int, start as int) =~= Seq::<SchemaRow>::empty());
    assert(flat_all(parent.children@) =~= Seq::<NodeInfo>::empty());
    while k < target
        invariant
            start <= *pos <= rows@.len(),
            start == *old(pos),
            info(parent) == pinfo,
            target == wanted(parent),
            k <= target,
            parent.children@.len() == k,
            flat_all(parent.children@) == rows_info(rows@.subrange(start as int, *pos as int)),
            forall|i: int|
                0 <= i < k - 1 ==> {
                    let c = #[trigger] parent.children@[i];
                    &&& c.num_children > 0 ==> full(c)
                    &&& c.num_children <= 0 ==> c.children@.len() == 0
                },
            k > 0 ==> {
                let c = parent.children@.last();
                &&& c.num_children > 0 ==> greedy(c)
                &&& c.num_children <= 0 ==> c.children@.len() == 0
                &&& *pos < rows@.len() ==> (c.num_children > 0 ==> full(c))
            },
        ensures
            start <= *pos <= rows@.len(),
            info(parent) == pinfo,
            target == wanted(parent),
            parent.children@.len() <= target,
            flat_all(parent.children@) == rows_info(rows@.subrange(start as int, *pos as int)),
            forall|i: int|
                0 <= i < parent.children@.len() - 1 ==> {
                    let c = #[trigger] parent.children@[i];
                    &&& c.num_children > 0 ==> full(c)
                    &&& c.num_children <= 0 ==> c.children@.len() == 0
                },
            parent.children@.len() > 0 ==> {
                let c = parent.children@.last();
                &&& c.num_children > 0 ==> greedy(c)
                &&& c.num_children <= 0 ==> c.children@.len() == 0
                &&& *pos < rows@.len() ==> (c.num_children > 0 ==> full(c))
            },
            *pos < rows@.len() ==> parent.children@.len() == target,
        decreases target - k,
    {
        if *pos >= rows.len() {
            break;
        }
        let p = *pos;
        let node = node_of_row(&rows[p]);
        *pos = p + 1;
        let node = if node.num_children > 0 {
            grow_tree(node, rows, pos)
        } else {
            proof {
                assert(flat_all(node.children@) =~= Seq::<NodeInfo>::empty());
                assert(rows@.subrange(p + 1, p + 1) =~= Seq::<SchemaRow>::empty());
            }
            node
        };
        let ghost before = parent.children@;
        parent.children.push(node);
        proof {
            lemma_flat_all_push(before, node);
            assert(rows@.subrange(start as int, *pos as int) =~= rows@.subrange(
                start as int,
                p as int,
            ) + seq![rows@[p as int]] + rows@.subrange(p + 1, *pos as int));
            assert(rows_info(rows@.subrange(start as int, *pos as int)) =~= rows_info(
                rows@.subrange(start as int, p as int),
            ) + seq![row_info(rows@[p as int])] + rows_info(rows@.subrange(p + 1, *pos as int)));
            assert(parent.children@[k as int] == node);
            assert forall|i: int| 0 <= i < k + 1 - 1 implies {
                let c = #[trigger] parent.children@[i];
                &&& c.num_children > 0 ==> full(c)
                &&& c.num_children <= 0 ==> c.children@.len() == 0
            } by {
                if i < k - 1 {
                    assert(parent.children@[i] == before[i]);
                } else {
                    assert(parent.children@[i] == before.last());
                }
            }
        }
        k = k + 1;
    }
    proof {
        if parent.children@.len() > 0 {
            let c = parent.children@.last();
            assert(parent.children@[parent.children@.len() - 1] == c);
        }
        if *pos < rows@.len() {
            assert forall|i: int| 0 <= i < parent.children@.len() implies {
                let c = #[trigger] parent.children@[i];
                &&& c.num_children > 0 ==> full(c)
                &&& c.num_children <= 0 ==> c.children@.len() == 0
            } by {
                if i == parent.children@.len() - 1 {
                    assert(parent.children@[i] == parent.children@.last());
                }
            }
        }
    }
    parent
}

/// Builds the subtree of `parent` from the rows after `*pos`, depth first: after the
/// children it already has, the parent takes as many new children as it asks for
/// (`num_children as usize`), each child with a positive count takes its own children the
/// same way, and it all stops when the rows run out. The new children are those of `fresh`
/// below, a copy of the parent grown from no children.
pub fn build_tree(parent: SchemaNode, rows: &Vec<SchemaRow>, pos: &mut usize) -> (tree:
    SchemaNode)
    requires
        *old(pos) <= rows@.len(),
    ensures
        *old(pos) <= *final(pos) <= rows@.len(),
        info(tree) == info(parent),
        exists|fresh: SchemaNode|
            {
                &&& info(fresh) == info(parent)
                &&& tree.children@ == parent.children@ + fresh.children@
                &&& flat(fresh) == seq![info(parent)] + rows_info(
                    rows@.subrange(*old(pos) as int, *final(pos) as int),
                )
                &&& greedy(fresh)
                &&& *final(pos) < rows@.len() ==> full(fresh)
            },
        parent.children@.len() == 0 ==> {
            &&& flat(tree) == seq![info(parent)] + rows_info(
                rows@.subrange(*old(pos) as int, *final(pos) as int),
            )
            &&& greedy(tree)
            &&& *final(pos) < rows@.len() ==> full(tree)
        },
{
    let mut bare = parent;
    let mut existing: Vec<SchemaNode> = Vec::new();
    std::mem::swap(&mut existing, &mut bare.children);
    let fresh = grow_tree(bare, rows, pos);
    let ghost fresh_view = fresh;
    let mut tree = fresh;
    let mut added: Vec<SchemaNode> = Vec::new();
    std::mem::swap(&mut added, &mut tree.children);
    let mut children = existing;
    children.append(&mut added);
    tree.children = children;
    proof {
        assert(tree.children@ =~= parent.children@ + fresh_view.children@);
        if parent.children@.len() == 0 {
            assert(tree.children@ =~= fresh_view.children@);
            assert(flat(tree) == flat(fresh_view));
            assert(greedy(tree) == greedy(fresh_view));
            assert(full(tree) == full(fresh_view));
        }
    }
    tree
}

/// The schema tree from the rows of `parquet_schema`: the first row is the root, and the
/// tree is built from the rest; no row is an error.
pub fn schema_tree_from_rows(rows: Vec<SchemaRow>) -> (r: Result<SchemaNode, MetadataError>)
    ensures
        rows@.len() == 0 <==> r is Err,
        r matches Ok(tree) ==> {
            &&& greedy(tree)
            &&& exists|used: int|
                1 <= used <= rows@.len() && flat(tree) == rows_info(rows@.subrange(0, used)) && (
                used < rows@.len() ==> full(tree))
        },
{
    if rows.len() == 0 {
        return Err(MetadataError::EmptySchema);
    }
    let root = node_of_row(&rows[0]);
    let mut pos: usize = 1;
    let tree = grow_tree(root, &rows, &mut pos);
    proof {
        assert(rows_info(rows@.subrange(0, pos as int)) =~= seq![row_info(rows@[0])] + rows_info(
            rows@.subrange(1, pos as int),
        ));
    }
    Ok(tree)
}

/// The depth of a tree (a leaf has height 0).
pub open spec fn height(n: SchemaNode) -> int
    decreases n, 1int,
{
    let c = n.children@;
    if c.len() == 0 {
        0
    } else {
        1 + max_height(c)
    }
}

pub open spec fn max_height(s: Seq<SchemaNode>) -> int
    decreases s, 0int,
{
    if s.len() == 0 {
        0
    } else {
        let h = height(s.last());
        let m = max_height(s.drop_last());
        if h > m {
            h
        } else {
            m
        }
    }
}

proof fn lemma_max_height_bound(s: Seq<SchemaNode>, i: int)
    requires
        0 <= i < s.len(),
    ensures
        height(s[i]) <= max_height(s),
        0 <= max_height(s),
    decreases s.len(),
{
    if i < s.len() - 1 {
        lemma_max_height_bound(s.drop_last(), i);
        assert(s.drop_last()[i] == s[i]);
    }
    lemma_max_height_nonneg(s);
}

proof fn lemma_max_height_nonneg(s: Seq<SchemaNode>)
    ensures
        0 <= max_height(s),
    decreases s.len(),
{
    if s.len() > 0 {
        lemma_max_height_nonneg(s.drop_last());
    }
}

pub proof fn lemma_child_height(n: SchemaNode, i: int)
    requires
        0 <= i < n.children@.len(),
    ensures
        height(n.children@[i]) < height(n),
        0 <= height(n.children@[i]),
{
    lemma_max_height_bound(n.children@, i);
    lemma_height_nonneg(n.children@[i]);
}

pub proof fn lemma_height_nonneg(n: SchemaNode)
    ensures
        0 <= height(n),
{
    lemma_max_height_nonneg(n.children@);
}

/// The query that lists the schema nodes of a source, depth first.
pub fn schema_nodes_sql(read_path: &str) -> (s: String)
    ensures
        s@ == "SELECT name, name AS path, COALESCE(type, ''), COALESCE(repetition_type, ''), num_children FROM parquet_schema("@
            + read_path@ + ")"@,
{
    let mut s = String::from_str(
        "SELECT name, name AS path, COALESCE(type, ''), COALESCE(repetition_type, ''), num_children FROM parquet_schema(",
    );
    s.append(read_path);
    s.append(")");
    s
}

/// The query that lists the row groups of a source.
pub fn row_groups_sql(read_path: &str) -> (s: String)
    ensures
        s@ == "SELECT DISTINCT row_group_id, row_group_num_rows, row_group_bytes, row_group_compressed_bytes FROM parquet_metadata("@
            + read_path@ + ")"@,
{
    let mut s = String::from_str(
        "SELECT DISTINCT row_group_id, row_group_num_rows, row_group_bytes, row_group_compressed_bytes FROM parquet_metadata(",
    );
    s.append(read_path);
    s.append(")");
    s
}

/// The query that lists the key-value metadata of a source.
pub fn kv_metadata_sql(read_path: &str) -> (s: String)
    ensures
        s@ == "SELECT key, value FROM parquet_kv_metadata("@ + read_path@ + ")"@,
{
    let mut s = String::from_str("SELECT key, value FROM parquet_kv_metadata(");
    s.append(read_path);
    s.append(")");
    s
}

} // verus!
