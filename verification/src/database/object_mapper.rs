use vstd::prelude::*;

use crate::text::{spec_join, join_all};
use crate::value::{FieldValue, SpecField, spec_column_decl, spec_field_wf, spec_literal};

verus! {

/// The fields of a mapper as their mathematical model: name and value pairs
/// in insertion order.
pub open spec fn fields_model(fields: Seq<(String, FieldValue)>) -> Seq<(Seq<char>, SpecField)> {
    fields.map_values(|p: (String, FieldValue)| (p.0@, p.1@))
}

/// The position of the first field of the given name, if any.
pub open spec fn spec_find_field(fs: Seq<(Seq<char>, SpecField)>, name: Seq<char>) -> Option<int>
    decreases fs.len(),
{
    if fs.len() == 0 {
        None
    } else if fs[0].0 == name {
        Some(0)
    } else {
        match spec_find_field(fs.drop_first(), name) {
            Some(i) => Some(i + 1),
            None => None,
        }
    }
}

/// What adding a field does to the field list: a field of a fresh name is
/// appended; one of a present name replaces that field's value in place,
/// keeping its position.
pub open spec fn spec_add_field(
    fs: Seq<(Seq<char>, SpecField)>,
    name: Seq<char>,
    value: SpecField,
) -> Seq<(Seq<char>, SpecField)> {
    match spec_find_field(fs, name) {
        Some(i) => fs.update(i, (name, value)),
        None => fs.push((name, value)),
    }
}

/// A name that no field of the list carries is not found in it.
pub proof fn lemma_find_field_absent(fs: Seq<(Seq<char>, SpecField)>, sought: Seq<char>)
    requires
        forall|i: int| 0 <= i < fs.len() ==> (#[trigger] fs[i]).0 != sought,
    ensures
        spec_find_field(fs, sought) is None,
    decreases fs.len(),
{
    if fs.len() > 0 {
        assert(fs[0].0 != sought);
        assert(forall|i: int|
            0 <= i < fs.drop_first().len() ==> (#[trigger] fs.drop_first()[i]).0 != sought);
        lemma_find_field_absent(fs.drop_first(), sought);
    }
}

/// Whether every field value in the list is within the encoders' ranges.
pub open spec fn fields_all_wf(fs: Seq<(Seq<char>, SpecField)>) -> bool {
    forall|i: int| 0 <= i < fs.len() ==> spec_field_wf(#[trigger] fs[i].1)
}

/// The column declarations of the fields, in insertion order.
pub open spec fn spec_schema_decls(fs: Seq<(Seq<char>, SpecField)>) -> Seq<Seq<char>> {
    fs.map_values(|p: (Seq<char>, SpecField)| spec_column_decl(p.0, p.1))
}

/// The `CREATE TABLE IF NOT EXISTS` statement for a table of these fields.
pub open spec fn spec_schema_statement(
    table: Seq<char>,
    fs: Seq<(Seq<char>, SpecField)>,
) -> Seq<char> {
    "CREATE TABLE IF NOT EXISTS "@ + table + " (\n\t"@ + spec_join(spec_schema_decls(fs), ",\n\t"@)
        + "\n);"@
}

/// The field names, in insertion order.
pub open spec fn spec_field_names(fs: Seq<(Seq<char>, SpecField)>) -> Seq<Seq<char>> {
    fs.map_values(|p: (Seq<char>, SpecField)| p.0)
}

/// The encoded field values, in insertion order.
pub open spec fn spec_field_literals(fs: Seq<(Seq<char>, SpecField)>) -> Seq<Seq<char>> {
    fs.map_values(|p: (Seq<char>, SpecField)| spec_literal(p.1))
}

/// The `INSERT` statement for a row of these fields.
pub open spec fn spec_insert_statement(
    table: Seq<char>,
    fs: Seq<(Seq<char>, SpecField)>,
) -> Seq<char> {
    "INSERT INTO "@ + table + " ("@ + spec_join(spec_field_names(fs), ", "@) + ")\nVALUES ("@
        + spec_join(spec_field_literals(fs), ", "@) + ");"@
}

/// Sequences a table name with an ordered list of named, encodable field
/// values, and emits the table's `CREATE TABLE` and `INSERT` statements.
/// The mapper is agnostic to entity shape: each entity contributes its own
/// field list.
#[derive(Debug)]
pub struct ObjectMapper {
    table_name: String,
    fields: Vec<(String, FieldValue)>,
}

impl ObjectMapper {
    /// The table name this mapper emits statements for.
    pub closed spec fn table(&self) -> Seq<char> {
        self.table_name@
    }

    /// The model of this mapper's fields, in insertion order.
    pub closed spec fn fields_view(&self) -> Seq<(Seq<char>, SpecField)> {
        fields_model(self.fields@)
    }

    /// Whether every held field value is within the encoders' ranges.
    pub open spec fn wf(&self) -> bool {
        fields_all_wf(self.fields_view())
    }

    /// A mapper for the given table with no fields yet.
    pub fn new(table_name: &str) -> (r: ObjectMapper)
        ensures
            r.table() == table_name@,
            r.fields_view() == Seq::<(Seq<char>, SpecField)>::empty(),
            r.wf(),
    {
        let r = ObjectMapper { table_name: table_name.to_owned(), fields: Vec::new() };
        proof {
            assert(r.fields_view() =~= Seq::<(Seq<char>, SpecField)>::empty());
        }
        r
    }

    /// Adds a field: appended under a fresh name, replaced in place under a
    /// present one.
    pub fn add_field(&mut self, name: &str, field: FieldValue)
        ensures
            final(self).table() == old(self).table(),
            final(self).fields_view() == spec_add_field(old(self).fields_view(), name@, field@),
            old(self).wf() && spec_field_wf(field@) ==> final(self).wf(),
    {
        let ghost old_fields = self.fields_view();
        let ghost old_wf = self.wf();
        proof {
            assert(old_fields.skip(0) =~= old_fields);
        }
        let mut i: usize = 0;
        let n = self.fields.len();
        while i < n
            invariant
                i <= n == self.fields.len(),
                old_fields == self.fields_view(),
                old_fields == old(self).fields_view(),
                old_wf == old(self).wf(),
                old_wf == fields_all_wf(old_fields),
                self.table_name == old(self).table_name,
                forall|j: int| 0 <= j < i ==> #[trigger] old_fields[j].0 != name@,
                spec_find_field(old_fields.skip(i as int), name@) == match spec_find_field(
                    old_fields,
                    name@,
                ) {
                    Some(k) => Some(k - i),
                    None => None::<int>,
                },
            decreases n - i,
        {
            proof {
                assert(old_fields.skip(i as int)[0] == old_fields[i as int]);
            }
            let found = {
                let a = self.fields[i].0.as_str().to_owned();
                let b = name.to_owned();
                a == b
            };
            if found {
                proof {
                    assert(old_fields[i as int].0 == name@);
                    assert(old_fields.skip(i as int).len() > 0);
                    assert(spec_find_field(old_fields.skip(i as int), name@) == Some(0int));
                    assert(spec_find_field(old_fields, name@) == Some(i as int));
                }
                let replacement = (name.to_owned(), field);
                self.fields.set(i, replacement);
                proof {
                    assert(self.fields_view() =~= old_fields.update(i as int, (name@, field@)));
                    assert(spec_add_field(old_fields, name@, field@) == old_fields.update(
                        i as int,
                        (name@, field@),
                    ));
                    if old_wf && spec_field_wf(field@) {
                        assert forall|j: int|
                            0 <= j < self.fields_view().len() implies spec_field_wf(
                            #[trigger] self.fields_view()[j].1,
                        ) by {
                            if j != i {
                                assert(self.fields_view()[j].1 == old_fields[j].1);
                                assert(spec_field_wf(old_fields[j].1));
                            }
                        }
                    }
                }
                return ;
            }
            proof {
                assert(old_fields.skip(i as int).drop_first() =~= old_fields.skip(i + 1));
            }
            i = i + 1;
        }
        proof {
            assert(old_fields.skip(n as int) =~= Seq::<(Seq<char>, SpecField)>::empty());
            assert(spec_find_field(old_fields, name@) is None);
        }
        self.fields.push((name.to_owned(), field));
        proof {
            assert(self.fields_view() =~= old_fields.push((name@, field@)));
            if old_wf && spec_field_wf(field@) {
                assert forall|j: int|
                    0 <= j < self.fields_view().len() implies spec_field_wf(
                    #[trigger] self.fields_view()[j].1,
                ) by {
                    if j < old_fields.len() {
                        assert(self.fields_view()[j].1 == old_fields[j].1);
                        assert(spec_field_wf(old_fields[j].1));
                    }
                }
            }
        }
    }

    /// Emits the idempotent `CREATE TABLE` statement, listing one column
    /// declaration per field in insertion order.
    pub fn schema(&self) -> (r: String)
        ensures
            r@ == spec_schema_statement(self.table(), self.fields_view()),
    {
        proof {
            reveal_strlit("CREATE TABLE IF NOT EXISTS ");
            reveal_strlit(" (\n\t");
            reveal_strlit(",\n\t");
            reveal_strlit("\n);");
        }
        let mut decls: Vec<String> = Vec::new();
        let mut i: usize = 0;
        while i < self.fields.len()
            invariant
                i <= self.fields.len(),
                decls@.map_values(|s: String| s@) =~= spec_schema_decls(
                    self.fields_view().take(i as int),
                ),
            decreases self.fields.len() - i,
        {
            let d = self.fields[i].1.column_decl(self.fields[i].0.as_str());
            decls.push(d);
            proof {
                assert(spec_schema_decls(self.fields_view().take(i + 1)) =~= spec_schema_decls(
                    self.fields_view().take(i as int),
                ).push(spec_column_decl(self.fields_view()[i as int].0, self.fields_view()[i as int].1)));
                assert(decls@.map_values(|s: String| s@) =~= spec_schema_decls(
                    self.fields_view().take(i + 1),
                ));
            }
            i = i + 1;
        }
        proof {
            assert(self.fields_view().take(self.fields@.len() as int) =~= self.fields_view());
        }
        let joined = join_all(&decls, ",\n\t");
        let mut out = "CREATE TABLE IF NOT EXISTS ".to_owned();
        out.append(self.table_name.as_str());
        out.append(" (\n\t");
        out.append(joined.as_str());
        out.append("\n);");
        out
    }

    /// Emits the `INSERT` statement: the field names and the encoded values,
    /// both in insertion order.
    pub fn insert(&self) -> (r: String)
        requires
            self.wf(),
        ensures
            r@ == spec_insert_statement(self.table(), self.fields_view()),
    {
        proof {
            reveal_strlit("INSERT INTO ");
            reveal_strlit(" (");
            reveal_strlit(", ");
            reveal_strlit(")\nVALUES (");
            reveal_strlit(");");
        }
        let mut names: Vec<String> = Vec::new();
        let mut literals: Vec<String> = Vec::new();
        let mut i: usize = 0;
        while i < self.fields.len()
            invariant
                i <= self.fields.len(),
                self.wf(),
                names@.map_values(|s: String| s@) =~= spec_field_names(
                    self.fields_view().take(i as int),
                ),
                literals@.map_values(|s: String| s@) =~= spec_field_literals(
                    self.fields_view().take(i as int),
                ),
            decreases self.fields.len() - i,
        {
            names.push(self.fields[i].0.as_str().to_owned());
            proof {
                assert(fields_all_wf(self.fields_view()));
                assert(spec_field_wf(self.fields_view()[i as int].1));
                assert(self.fields_view()[i as int].1 == self.fields@[i as int].1@);
            }
            let lit = self.fields[i].1.literal();
            literals.push(lit);
            proof {
                assert(spec_field_names(self.fields_view().take(i + 1)) =~= spec_field_names(
                    self.fields_view().take(i as int),
                ).push(self.fields_view()[i as int].0));
                assert(names@.map_values(|s: String| s@) =~= spec_field_names(
                    self.fields_view().take(i + 1),
                ));
                assert(spec_field_literals(self.fields_view().take(i + 1)) =~= spec_field_literals(
                    self.fields_view().take(i as int),
                ).push(spec_literal(self.fields_view()[i as int].1)));
                assert(literals@.map_values(|s: String| s@) =~= spec_field_literals(
                    self.fields_view().take(i + 1),
                ));
            }
            i = i + 1;
        }
        proof {
            assert(self.fields_view().take(self.fields@.len() as int) =~= self.fields_view());
        }
        let joined_names = join_all(&names, ", ");
        let joined_literals = join_all(&literals, ", ");
        let mut out = "INSERT INTO ".to_owned();
        out.append(self.table_name.as_str());
        out.append(" (");
        out.append(joined_names.as_str());
        out.append(")\nVALUES (");
        out.append(joined_literals.as_str());
        out.append(");");
        out
    }
}

/// The `INSERT` statement's field-name list and encoded-value list have the
/// same length, and at every position both come from the same field, in
/// insertion order.
pub proof fn lemma_insert_lists_aligned(fs: Seq<(Seq<char>, SpecField)>)
    ensures
        spec_field_names(fs).len() == fs.len(),
        spec_field_literals(fs).len() == fs.len(),
        forall|i: int|
            0 <= i < fs.len() ==> #[trigger] spec_field_names(fs)[i] == fs[i].0
                && spec_field_literals(fs)[i] == spec_literal(fs[i].1),
{
}

/// The schema statement lists one declaration per field, in insertion order,
/// and a declaration carries the `NOT NULL` qualifier exactly where its
/// field's value is not optional.
pub proof fn lemma_schema_lists_fields_in_order(fs: Seq<(Seq<char>, SpecField)>)
    ensures
        spec_schema_decls(fs).len() == fs.len(),
        forall|i: int|
            0 <= i < fs.len() ==> #[trigger] spec_schema_decls(fs)[i] == spec_column_decl(
                fs[i].0,
                fs[i].1,
            ),
        forall|i: int|
            0 <= i < fs.len() && !crate::value::spec_nullable(fs[i].1)
                ==> #[trigger] spec_schema_decls(fs)[i] == fs[i].0 + seq![' ']
                + crate::value::spec_type_name(crate::value::spec_sql_type(fs[i].1)) + " NOT NULL"@,
        forall|i: int|
            0 <= i < fs.len() && crate::value::spec_nullable(fs[i].1)
                ==> #[trigger] spec_schema_decls(fs)[i] == fs[i].0 + seq![' ']
                + crate::value::spec_type_name(crate::value::spec_sql_type(fs[i].1)),
{
    assert forall|i: int|
        0 <= i < fs.len() && crate::value::spec_nullable(fs[i].1) implies #[trigger] spec_schema_decls(
        fs,
    )[i] == fs[i].0 + seq![' '] + crate::value::spec_type_name(
        crate::value::spec_sql_type(fs[i].1),
    ) by {
        assert(spec_column_decl(fs[i].0, fs[i].1) =~= fs[i].0 + seq![' ']
            + crate::value::spec_type_name(crate::value::spec_sql_type(fs[i].1)));
    }
}

} // verus!
