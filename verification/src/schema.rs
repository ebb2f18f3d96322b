use vstd::prelude::*;
use std::sync::Arc;

verus! {

#[verifier::external_type_specification]
#[verifier::external_body]
pub struct ExField(arrow::datatypes::Field);

/// One column descriptor of a schema: the column's name, and the engine's
/// full descriptor (name, type, nullability) behind a shared handle. The
/// handle is carried through the projection unread, so the projected
/// schema keeps each retained column's type exactly.
pub struct ColumnDesc {
    /// The column's name, by which batches address it.
    pub name: String,
    /// The engine's descriptor for this column, shared, never rebuilt.
    pub field: Arc<arrow::datatypes::Field>,
}

/// The name carried inside an engine field descriptor: the name by which
/// batches holding a column of that field address it.
pub uninterp spec fn field_name(f: Arc<arrow::datatypes::Field>) -> Seq<char>;

/// A well-formed column descriptor: its name is its field's own name, so
/// looking a batch up by the descriptor's name finds the field's column.
pub open spec fn wf_desc(c: ColumnDesc) -> bool {
    c.name@ == field_name(c.field)
}

/// Whether every descriptor of a schema is well-formed.
pub open spec fn wf_descs(s: Seq<ColumnDesc>) -> bool {
    forall|i: int| 0 <= i < s.len() ==> #[trigger] wf_desc(s[i])
}

/// Relies on `Arc::clone`: the clone is a handle to the same field.
#[verifier::external_body]
fn clone_field(f: &Arc<arrow::datatypes::Field>) -> (r: Arc<arrow::datatypes::Field>)
    ensures
        r == *f,
{
    Arc::clone(f)
}

impl Clone for ColumnDesc {
    fn clone(&self) -> (r: Self)
        ensures
            r == *self,
    {
        ColumnDesc { name: self.name.clone(), field: clone_field(&self.field) }
    }
}

/// Whether some requested column name reads `n`.
pub open spec fn contains_name(cols: Seq<String>, n: Seq<char>) -> bool {
    exists|i: int| 0 <= i < cols.len() && cols[i]@ == n
}

/// The projection of a schema by a requested column set: the columns whose
/// names are requested, in the order the source schema declares them.
pub open spec fn project_spec(sch: Seq<ColumnDesc>, cols: Seq<String>) -> Seq<ColumnDesc> {
    sch.filter(|c: ColumnDesc| contains_name(cols, c.name@))
}

/// Whether no two columns of the schema share a name. A source schema is
/// assumed to satisfy this; the projection preserves it.
pub open spec fn unique_names(s: Seq<ColumnDesc>) -> bool {
    forall|i: int, j: int| 0 <= i < j < s.len() ==> s[i].name@ != s[j].name@
}

/// Whether the requested set holds the name of every column of the schema.
pub open spec fn covers_all_names(sch: Seq<ColumnDesc>, cols: Seq<String>) -> bool {
    forall|i: int| 0 <= i < sch.len() ==> contains_name(cols, #[trigger] sch[i].name@)
}

fn name_in_cols(cols: &Vec<String>, name: &String) -> (r: bool)
    ensures
        r == contains_name(cols@, name@),
{
    let mut i: usize = 0;
    while i < cols.len()
        invariant
            i <= cols.len(),
            forall|j: int| 0 <= j < i ==> cols@[j]@ != name@,
        decreases cols.len() - i,
    {
        let c: String = cols[i].clone();
        if c == name.clone() {
            return true;
        }
        i = i + 1;
    }
    false
}

/// Derives the projected schema: the source schema's columns, in their
/// declared order, restricted to those whose name is requested. Requested
/// names that match no source column are silently dropped. No reordering,
/// no failure path.
pub fn sch2selected(sch: &Vec<ColumnDesc>, cols: &Vec<String>) -> (r: Vec<ColumnDesc>)
    ensures
        r@ == project_spec(sch@, cols@),
{
    let ghost pred = |c: ColumnDesc| contains_name(cols@, c.name@);
    let mut out: Vec<ColumnDesc> = Vec::new();
    let mut i: usize = 0;
    while i < sch.len()
        invariant
            i <= sch.len(),
            out@ == sch@.take(i as int).filter(pred),
            pred == (|c: ColumnDesc| contains_name(cols@, c.name@)),
        decreases sch.len() - i,
    {
        proof {
            reveal_with_fuel(Seq::filter, 2);
            assert(sch@.take(i + 1 as int) =~= sch@.take(i as int) + seq![sch@[i as int]]);
            Seq::filter_distributes_over_add(sch@.take(i as int), seq![sch@[i as int]], pred);
            assert(seq![sch@[i as int]].drop_last() =~= Seq::<ColumnDesc>::empty());
        }
        if name_in_cols(cols, &sch[i].name) {
            out.push(sch[i].clone());
        }
        proof {
            assert(out@ =~= sch@.take(i + 1 as int).filter(pred));
        }
        i = i + 1;
    }
    proof {
        assert(sch@.take(sch@.len() as int) =~= sch@);
    }
    out
}

proof fn lemma_project_element_in_source(sch: Seq<ColumnDesc>, cols: Seq<String>, k: int)
    requires
        0 <= k < project_spec(sch, cols).len(),
    ensures
        sch.contains(project_spec(sch, cols)[k]),
    decreases sch.len(),
{
    reveal_with_fuel(Seq::filter, 2);
    let pred = |c: ColumnDesc| contains_name(cols, c.name@);
    if sch.len() == 0 {
    } else {
        let rest = project_spec(sch.drop_last(), cols);
        if pred(sch.last()) && k == rest.len() {
            assert(project_spec(sch, cols)[k] == sch.last());
            assert(sch.contains(sch.last()));
        } else {
            lemma_project_element_in_source(sch.drop_last(), cols, k);
            let i = choose|i: int| 0 <= i < sch.drop_last().len() && sch.drop_last()[i] == rest[k];
            assert(sch[i] == rest[k]);
        }
    }
}

/// A projected schema holds exactly the source columns whose names are
/// requested: membership in the projection is membership in the source
/// together with a requested name.
pub proof fn lemma_project_membership(sch: Seq<ColumnDesc>, cols: Seq<String>)
    ensures
        forall|k: int|
            0 <= k < project_spec(sch, cols).len() ==> sch.contains(
                #[trigger] project_spec(sch, cols)[k],
            ) && contains_name(cols, project_spec(sch, cols)[k].name@),
        forall|i: int|
            0 <= i < sch.len() && contains_name(cols, sch[i].name@) ==> project_spec(
                sch,
                cols,
            ).contains(#[trigger] sch[i]),
{
    let pred = |c: ColumnDesc| contains_name(cols, c.name@);
    assert forall|k: int| 0 <= k < project_spec(sch, cols).len() implies sch.contains(
        #[trigger] project_spec(sch, cols)[k],
    ) && contains_name(cols, project_spec(sch, cols)[k].name@) by {
        lemma_project_element_in_source(sch, cols, k);
        sch.lemma_filter_pred(pred, k);
    }
    assert forall|i: int|
        0 <= i < sch.len() && contains_name(cols, sch[i].name@) implies project_spec(
        sch,
        cols,
    ).contains(#[trigger] sch[i]) by {
        sch.lemma_filter_contains(pred, i);
    }
}

/// The projection keeps the source's relative order: any two projected
/// columns stand at source positions in the same order as in the
/// projection.
pub proof fn lemma_project_order(sch: Seq<ColumnDesc>, cols: Seq<String>, k1: int, k2: int)
    requires
        0 <= k1 < k2 < project_spec(sch, cols).len(),
    ensures
        exists|i1: int, i2: int|
            0 <= i1 < i2 < sch.len() && #[trigger] sch[i1] == project_spec(sch, cols)[k1]
                && #[trigger] sch[i2] == project_spec(sch, cols)[k2],
    decreases sch.len(),
{
    reveal_with_fuel(Seq::filter, 2);
    let pred = |c: ColumnDesc| contains_name(cols, c.name@);
    let out = project_spec(sch, cols);
    let rest = project_spec(sch.drop_last(), cols);
    if pred(sch.last()) && k2 == rest.len() {
        lemma_project_element_in_source(sch.drop_last(), cols, k1);
        let i1 = choose|i: int| 0 <= i < sch.drop_last().len() && sch.drop_last()[i] == rest[k1];
        assert(0 <= i1 < sch.len() - 1 < sch.len() && sch[i1] == out[k1] && sch[sch.len() - 1]
            == out[k2]);
    } else {
        lemma_project_order(sch.drop_last(), cols, k1, k2);
        let (i1, i2) = choose|i1: int, i2: int|
            0 <= i1 < i2 < sch.drop_last().len() && #[trigger] sch.drop_last()[i1] == rest[k1]
                && #[trigger] sch.drop_last()[i2] == rest[k2];
        assert(0 <= i1 < i2 < sch.len() && sch[i1] == out[k1] && sch[i2] == out[k2]);
    }
}

/// A projection of a well-formed schema is well-formed: every projected
/// descriptor still carries its own field's name.
pub proof fn lemma_project_wf(sch: Seq<ColumnDesc>, cols: Seq<String>)
    requires
        wf_descs(sch),
    ensures
        wf_descs(project_spec(sch, cols)),
{
    let out = project_spec(sch, cols);
    assert forall|k: int| 0 <= k < out.len() implies #[trigger] wf_desc(out[k]) by {
        lemma_project_element_in_source(sch, cols, k);
        let i = choose|i: int| 0 <= i < sch.len() && sch[i] == out[k];
        assert(wf_desc(sch[i]));
    }
}

/// A projection of a schema with unique column names has unique column
/// names itself.
pub proof fn lemma_project_unique(sch: Seq<ColumnDesc>, cols: Seq<String>)
    requires
        unique_names(sch),
    ensures
        unique_names(project_spec(sch, cols)),
{
    let out = project_spec(sch, cols);
    assert forall|k1: int, k2: int| 0 <= k1 < k2 < out.len() implies out[k1].name@
        != out[k2].name@ by {
        lemma_project_order(sch, cols, k1, k2);
    }
}

/// Projecting by an empty requested set yields a schema of zero columns.
pub proof fn lemma_project_empty(sch: Seq<ColumnDesc>)
    ensures
        project_spec(sch, Seq::<String>::empty()) =~= Seq::<ColumnDesc>::empty(),
    decreases sch.len(),
{
    reveal_with_fuel(Seq::filter, 2);
    if sch.len() == 0 {
    } else {
        lemma_project_empty(sch.drop_last());
        assert(!contains_name(Seq::<String>::empty(), sch.last().name@));
    }
}

/// Projecting by a requested set that holds every column name of the
/// source yields the source schema itself: same columns, same order, same
/// descriptors.
pub proof fn lemma_project_all(sch: Seq<ColumnDesc>, cols: Seq<String>)
    requires
        covers_all_names(sch, cols),
    ensures
        project_spec(sch, cols) == sch,
    decreases sch.len(),
{
    reveal_with_fuel(Seq::filter, 2);
    let pred = |c: ColumnDesc| contains_name(cols, c.name@);
    if sch.len() == 0 {
        assert(project_spec(sch, cols) =~= sch);
    } else {
        assert(covers_all_names(sch.drop_last(), cols)) by {
            assert(forall|i: int|
                0 <= i < sch.drop_last().len() ==> #[trigger] sch.drop_last()[i] == sch[i]);
        }
        lemma_project_all(sch.drop_last(), cols);
        assert(pred(sch.last()));
        assert(project_spec(sch, cols) =~= sch.drop_last().push(sch.last()));
        assert(sch.drop_last().push(sch.last()) =~= sch);
    }
}

} // verus!
