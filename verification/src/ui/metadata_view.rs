//! The metadata screen: schema tree, row groups and key-value entries, with a scroll.
use crate::app::{append_int_text, App};
use crate::engine::metadata::{height, KvMetadata, ParquetMetadata, RowGroupInfo};
use crate::text::{chars_of, int_text, text_from};
use crate::ui::text_views::{render_schema, schema_lines, views_of};
use vstd::prelude::*;

verus! {

/// Scrolls the metadata view by `delta` lines, not above its first line.
pub fn scroll<E>(app: &mut App<E>, delta: i32)
    requires
        i32::MIN <= (old(app).meta_scroll as i32) + delta <= i32::MAX,
    ensures
        *final(app) == (App {
            meta_scroll: (if (old(app).meta_scroll as i32) + delta < 0 {
                0
            } else {
                (old(app).meta_scroll as i32) + delta
            }) as usize,
            ..*old(app)
        }),
{
    let cur = app.meta_scroll as i32;
    let sum = cur + delta;
    let new = if sum < 0 {
        0
    } else {
        sum
    };
    app.meta_scroll = new as usize;
}

/// Characters of a key-value entry's value that the listing shows before cutting it.
pub const KV_PREVIEW_CHARS: usize = 80;

/// A value as the listing shows it: cut to its first 80 characters, with `...`, when it is
/// longer.
pub open spec fn kv_preview(v: Seq<char>) -> Seq<char> {
    if v.len() > KV_PREVIEW_CHARS {
        v.take(KV_PREVIEW_CHARS as int) + "..."@
    } else {
        v
    }
}

/// The line of a key-value entry.
pub open spec fn kv_line(kv: KvMetadata) -> Seq<char> {
    "  "@ + kv.key@ + ": "@ + kv_preview(kv.value@)
}

/// The line of a row group, with its sizes as given texts.
pub open spec fn row_group_line(rg: RowGroupInfo, size: Seq<char>, compressed: Seq<char>) -> Seq<char> {
    "  #"@ + int_text(rg.row_group_id as int) + ": "@ + int_text(rg.row_num as int) + " rows, "@
        + size + " ("@ + compressed + ")"@
}

/// The listing of the metadata screen. `sizes[i]` holds the texts of row group `i`'s
/// uncompressed and compressed sizes.
pub open spec fn metadata_listing(
    meta: Option<ParquetMetadata>,
    sizes: Seq<(String, String)>,
) -> Seq<Seq<char>> {
    match meta {
        None => seq!["Loading metadata..."@],
        Some(m) => seq!["=== Schema Tree ==="@] + schema_lines(m.schema_tree, 0) + seq![
            Seq::<char>::empty(),
            "=== Row Groups ("@ + int_text(m.row_groups@.len() as int) + ") ==="@,
        ] + Seq::new(
            m.row_groups@.len(),
            |i: int| row_group_line(m.row_groups@[i], sizes[i].0@, sizes[i].1@),
        ) + seq![
            Seq::<char>::empty(),
            "=== Key-Value Metadata ("@ + int_text(m.kv_metadata@.len() as int) + ") ==="@,
        ] + Seq::new(m.kv_metadata@.len(), |i: int| kv_line(m.kv_metadata@[i])),
    }
}

/// Law: the metadata listing shows the schema tree's lines under their title, then one
/// line per row group with that group's own id, row count and sizes, then one line per
/// key-value entry with its key and its value (cut to 80 characters and `...` when
/// longer), each list under a title that counts it, with an empty line between them.
pub proof fn law_metadata_listing_lines(m: ParquetMetadata, sizes: Seq<(String, String)>)
    requires
        sizes.len() == m.row_groups@.len(),
    ensures
        metadata_listing(None, sizes) == seq!["Loading metadata..."@],
        ({
            let l = metadata_listing(Some(m), sizes);
            let tree = schema_lines(m.schema_tree, 0);
            let sl = tree.len() as int;
            let g = m.row_groups@.len() as int;
            let k = m.kv_metadata@.len() as int;
            &&& l.len() == sl + g + k + 5
            &&& l[0] == "=== Schema Tree ==="@
            &&& forall|i: int| 0 <= i < sl ==> l[1 + i] == tree[i]
            &&& l[sl + 1] == Seq::<char>::empty()
            &&& l[sl + 2] == "=== Row Groups ("@ + int_text(g) + ") ==="@
            &&& forall|i: int|
                0 <= i < g ==> l[sl + 3 + i] == "  #"@ + int_text(
                    m.row_groups@[i].row_group_id as int,
                ) + ": "@ + int_text(m.row_groups@[i].row_num as int) + " rows, "@
                    + sizes[i].0@ + " ("@ + sizes[i].1@ + ")"@
            &&& l[sl + 3 + g] == Seq::<char>::empty()
            &&& l[sl + 4 + g] == "=== Key-Value Metadata ("@ + int_text(k) + ") ==="@
            &&& forall|j: int|
                0 <= j < k ==> l[sl + 5 + g + j] == "  "@ + m.kv_metadata@[j].key@ + ": "@ + (
                if m.kv_metadata@[j].value@.len() > 80 {
                    m.kv_metadata@[j].value@.take(80) + "..."@
                } else {
                    m.kv_metadata@[j].value@
                })
        }),
{
    let l = metadata_listing(Some(m), sizes);
    let tree = schema_lines(m.schema_tree, 0);
    let sl = tree.len() as int;
    let g = m.row_groups@.len() as int;
    let k = m.kv_metadata@.len() as int;
    let groups = Seq::new(
        m.row_groups@.len(),
        |i: int| row_group_line(m.row_groups@[i], sizes[i].0@, sizes[i].1@),
    );
    let kvs = Seq::new(m.kv_metadata@.len(), |i: int| kv_line(m.kv_metadata@[i]));
    let t1 = seq!["=== Schema Tree ==="@] + tree;
    let t2 = t1 + seq![
        Seq::<char>::empty(),
        "=== Row Groups ("@ + int_text(g) + ") ==="@,
    ];
    let t3 = t2 + groups;
    let t4 = t3 + seq![
        Seq::<char>::empty(),
        "=== Key-Value Metadata ("@ + int_text(k) + ") ==="@,
    ];
    assert(l == t4 + kvs);
    assert forall|i: int| 0 <= i < sl implies l[1 + i] == tree[i] by {
        assert(t1[1 + i] == tree[i]);
    }
    assert forall|i: int| 0 <= i < g implies l[sl + 3 + i] == "  #"@ + int_text(
        m.row_groups@[i].row_group_id as int,
    ) + ": "@ + int_text(m.row_groups@[i].row_num as int) + " rows, "@ + sizes[i].0@ + " ("@
        + sizes[i].1@ + ")"@ by {
        assert(t3[sl + 3 + i] == groups[i]);
    }
    assert forall|j: int| 0 <= j < k implies l[sl + 5 + g + j] == "  "@ + m.kv_metadata@[j].key@
        + ": "@ + (if m.kv_metadata@[j].value@.len() > 80 {
        m.kv_metadata@[j].value@.take(80) + "..."@
    } else {
        m.kv_metadata@[j].value@
    }) by {
        assert(l[sl + 5 + g + j] == kvs[j]);
    }
    assert(l[0] == t1[0]);
}

fn kv_line_text(kv: &KvMetadata) -> (s: String)
    ensures
        s@ == kv_line(*kv),
{
    let mut s = String::from_str("  ");
    s.append(kv.key.as_str());
    s.append(": ");
    let v = chars_of(kv.value.as_str());
    if v.len() > KV_PREVIEW_CHARS {
        let mut head: Vec<char> = Vec::new();
        let mut i: usize = 0;
        while i < KV_PREVIEW_CHARS
            invariant
                i <= KV_PREVIEW_CHARS < v@.len(),
                head@ == v@.take(i as int),
            decreases KV_PREVIEW_CHARS - i,
        {
            head.push(v[i]);
            i = i + 1;
            assert(head@ =~= v@.take(i as int));
        }
        let t = text_from(head.as_slice());
        s.append(t.as_str());
        s.append("...");
    } else {
        s.append(kv.value.as_str());
    }
    s
}

fn row_group_line_text(rg: &RowGroupInfo, size: &String, compressed: &String) -> (s: String)
    ensures
        s@ == row_group_line(*rg, size@, compressed@),
{
    let mut s = String::from_str("  #");
    append_int_text(&mut s, rg.row_group_id as i128);
    s.append(": ");
    append_int_text(&mut s, rg.row_num as i128);
    s.append(" rows, ");
    s.append(size.as_str());
    s.append(" (");
    s.append(compressed.as_str());
    s.append(")");
    s
}

fn count_title(prefix: &str, n: usize) -> (s: String)
    ensures
        s@ == prefix@ + int_text(n as int) + ") ==="@,
{
    let mut s = String::from_str(prefix);
    append_int_text(&mut s, n as i128);
    s.append(") ===");
    s
}

/// The lines that the metadata screen lists: the schema tree, the row groups and the
/// key-value entries under their titles, or a loading line while there is no metadata.
/// `sizes` gives the texts of each row group's two sizes.
pub fn metadata_lines(meta: &Option<ParquetMetadata>, sizes: &Vec<(String, String)>) -> (r: Vec<String>)
    requires
        meta matches Some(m) ==> sizes@.len() == m.row_groups@.len() && height(m.schema_tree)
            < usize::MAX,
    ensures
        views_of(r@) == metadata_listing(*meta, sizes@),
{
    let mut lines: Vec<String> = Vec::new();
    match meta {
        None => {
            lines.push(String::from_str("Loading metadata..."));
            assert(views_of(lines@) =~= metadata_listing(*meta, sizes@));
        },
        Some(m) => {
            proof {
                reveal_strlit("=== Row Groups (");
                reveal_strlit("=== Key-Value Metadata (");
                reveal_strlit("=== Schema Tree ===");
            }
            lines.push(String::from_str("=== Schema Tree ==="));
            assert(views_of(lines@) =~= seq!["=== Schema Tree ==="@]);
            render_schema(&m.schema_tree, 0, &mut lines);
            let ghost after_tree = views_of(lines@);
            lines.push(String::new());
            let t = count_title("=== Row Groups (", m.row_groups.len());
            let ghost t_view = t@;
            lines.push(t);
            let ghost before_groups = views_of(lines@);
            assert(before_groups =~= after_tree + seq![Seq::<char>::empty(), t_view]);
            let mut i: usize = 0;
            while i < m.row_groups.len()
                invariant
                    i <= m.row_groups@.len(),
                    sizes@.len() == m.row_groups@.len(),
                    views_of(lines@) == before_groups + Seq::new(
                        i as nat,
                        |k: int| row_group_line(m.row_groups@[k], sizes@[k].0@, sizes@[k].1@),
                    ),
                decreases m.row_groups@.len() - i,
            {
                let line = row_group_line_text(&m.row_groups[i], &sizes[i].0, &sizes[i].1);
                let ghost prev = lines@;
                lines.push(line);
                assert(views_of(lines@) =~= views_of(prev).push(line@));
                i = i + 1;
                assert(views_of(lines@) =~= before_groups + Seq::new(
                    i as nat,
                    |k: int| row_group_line(m.row_groups@[k], sizes@[k].0@, sizes@[k].1@),
                ));
            }
            let ghost after_groups = views_of(lines@);
            lines.push(String::new());
            let t2 = count_title("=== Key-Value Metadata (", m.kv_metadata.len());
            let ghost t2_view = t2@;
            lines.push(t2);
            let ghost before_kv = views_of(lines@);
            assert(before_kv =~= after_groups + seq![Seq::<char>::empty(), t2_view]);
            let mut j: usize = 0;
            while j < m.kv_metadata.len()
                invariant
                    j <= m.kv_metadata@.len(),
                    views_of(lines@) == before_kv + Seq::new(
                        j as nat,
                        |k: int| kv_line(m.kv_metadata@[k]),
                    ),
                decreases m.kv_metadata@.len() - j,
            {
                let line = kv_line_text(&m.kv_metadata[j]);
                let ghost prev = lines@;
                lines.push(line);
                assert(views_of(lines@) =~= views_of(prev).push(line@));
                j = j + 1;
                assert(views_of(lines@) =~= before_kv + Seq::new(
                    j as nat,
                    |k: int| kv_line(m.kv_metadata@[k]),
                ));
            }
            assert(views_of(lines@) =~= metadata_listing(*meta, sizes@));
        },
    }
    lines
}

} // verus!
