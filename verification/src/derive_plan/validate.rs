//! The checks a struct must pass before anything is generated for it.

use vstd::prelude::*;
use crate::derive_plan::attrs::Diagnostic;
use crate::derive_plan::state::{ParsedField, ParsedState};

verus! {

/// What the checks remember while walking the fields: the last id field,
/// which field holds each wire name, and the errors found so far as
/// (field, message).
pub struct CheckState {
    pub id_field: Option<Seq<char>>,
    pub wire_names: Map<Seq<char>, Seq<char>>,
    pub errors: Seq<(Seq<char>, Seq<char>)>,
}

pub open spec fn duplicate_id_message(existing: Seq<char>, field: Seq<char>) -> Seq<char> {
    "duplicate #[sync(id)] fields: `"@ + existing + "` and `"@ + field + "`"@
}

pub open spec fn collision_message(wire: Seq<char>, existing: Seq<char>, field: Seq<char>) -> Seq<char> {
    "wire name collision for `"@ + wire + "` between fields `"@ + existing + "` and `"@ + field
        + "`"@
}

/// The checks of one field.
pub open spec fn check_field(state: CheckState, field: ParsedField) -> CheckState {
    let ident = field.ident@;
    let e1 = if field.attrs.is_id && state.id_field is Some {
        state.errors.push((ident, duplicate_id_message(state.id_field.unwrap(), ident)))
    } else {
        state.errors
    };
    let id1 = if field.attrs.is_id {
        Some(ident)
    } else {
        state.id_field
    };
    let e2 = if field.attrs.is_id && field.attrs.is_skip {
        e1.push((ident, "a field cannot use both #[sync(id)] and #[sync(skip)]"@))
    } else {
        e1
    };
    let e3 = if field.attrs.with is Some {
        e2.push((ident, "#[sync(with = ...)] is not supported in v1"@))
    } else {
        e2
    };
    if !field.included() {
        CheckState { id_field: id1, wire_names: state.wire_names, errors: e3 }
    } else {
        let wire = field.wire_name@;
        let e4 = if state.wire_names.contains_key(wire) {
            e3.push((ident, collision_message(wire, state.wire_names[wire], ident)))
        } else {
            e3
        };
        CheckState { id_field: id1, wire_names: state.wire_names.insert(wire, ident), errors: e4 }
    }
}

/// The checks of all fields, in order.
pub open spec fn check_fields(fields: Seq<ParsedField>) -> CheckState
    decreases fields.len(),
{
    if fields.len() == 0 {
        CheckState { id_field: None, wire_names: Map::empty(), errors: Seq::empty() }
    } else {
        check_field(check_fields(fields.drop_last()), fields.last())
    }
}

/// The map that (wire name, field) pairs give when later pairs win.
pub open spec fn pairs_map(pairs: Seq<(String, String)>) -> Map<Seq<char>, Seq<char>>
    decreases pairs.len(),
{
    if pairs.len() == 0 {
        Map::empty()
    } else {
        pairs_map(pairs.drop_last()).insert(pairs.last().0@, pairs.last().1@)
    }
}

/// The position of the last pair for `key`, or -1.
pub open spec fn last_key_index(pairs: Seq<(String, String)>, key: Seq<char>) -> int
    decreases pairs.len(),
{
    if pairs.len() == 0 {
        -1
    } else if pairs.last().0@ == key {
        pairs.len() - 1
    } else {
        last_key_index(pairs.drop_last(), key)
    }
}

proof fn lemma_pairs_map_lookup(pairs: Seq<(String, String)>, key: Seq<char>)
    ensures
        -1 <= last_key_index(pairs, key) < pairs.len(),
        pairs_map(pairs).contains_key(key) <==> last_key_index(pairs, key) >= 0,
        last_key_index(pairs, key) >= 0 ==> pairs_map(pairs)[key] == pairs[last_key_index(
            pairs,
            key,
        )].1@,
    decreases pairs.len(),
{
    if pairs.len() > 0 && pairs.last().0@ != key {
        lemma_pairs_map_lookup(pairs.drop_last(), key);
    }
}

fn find_last_key(pairs: &Vec<(String, String)>, key: &String) -> (r: Option<usize>)
    ensures
        r is None <==> last_key_index(pairs@, key@) < 0,
        r matches Some(k) ==> k as int == last_key_index(pairs@, key@),
{
    let mut j: usize = pairs.len();
    assert(pairs@.take(j as int) =~= pairs@);
    while j > 0
        invariant
            j <= pairs@.len(),
            last_key_index(pairs@, key@) == last_key_index(pairs@.take(j as int), key@),
        decreases j,
    {
        assert(pairs@.take(j as int).drop_last() =~= pairs@.take(j as int - 1));
        if pairs[j - 1].0 == *key {
            return Some(j - 1);
        }
        j = j - 1;
    }
    None
}

/// The errors as diagnostics, in order.
pub open spec fn diagnostics_match(found: Seq<Diagnostic>, errors: Seq<(Seq<char>, Seq<char>)>) -> bool {
    &&& found.len() == errors.len()
    &&& forall|i: int| 0 <= i < found.len() ==> (#[trigger] found[i].at@, found[i].message@) == errors[i]
}

/// Checks a struct: at most one `#[sync(id)]` field, no field both id and
/// skipped, no `#[sync(with = ..)]`, and no two included fields under one
/// wire name. Every error found is reported, in field order.
pub fn validate_state(state: &ParsedState) -> (r: Result<(), Vec<Diagnostic>>)
    ensures
        match r {
            Ok(()) => check_fields(state.fields@).errors.len() == 0,
            Err(found) => found@.len() > 0 && diagnostics_match(found@, check_fields(state.fields@).errors),
        },
{
    let mut errors: Vec<Diagnostic> = Vec::new();
    let mut id_field: Option<String> = None;
    let mut wire_names: Vec<(String, String)> = Vec::new();
    let mut i: usize = 0;
    while i < state.fields.len()
        invariant
            i <= state.fields@.len(),
            ({
                let done = check_fields(state.fields@.take(i as int));
                &&& diagnostics_match(errors@, done.errors)
                &&& done.id_field == (match id_field {
                    Some(name) => Some(name@),
                    None => None::<Seq<char>>,
                })
                &&& done.wire_names == pairs_map(wire_names@)
            }),
        decreases state.fields@.len() - i,
    {
        let field = &state.fields[i];
        assert(state.fields@.take(i as int + 1).drop_last() =~= state.fields@.take(i as int));
        let ghost before = check_fields(state.fields@.take(i as int));
        let ghost errors_before = errors@;
        if field.attrs.is_id {
            match &id_field {
                Some(existing) => {
                    let message = "duplicate #[sync(id)] fields: `".to_owned().concat(existing.as_str()).concat(
                        "` and `",
                    ).concat(field.ident.as_str()).concat("`");
                    errors.push(Diagnostic { at: field.ident.clone(), message });
                },
                None => {},
            }
            id_field = Some(field.ident.clone());
        }
        if field.attrs.is_id && field.attrs.is_skip {
            errors.push(
                Diagnostic {
                    at: field.ident.clone(),
                    message: "a field cannot use both #[sync(id)] and #[sync(skip)]".to_owned(),
                },
            );
        }
        if field.attrs.with.is_some() {
            errors.push(
                Diagnostic {
                    at: field.ident.clone(),
                    message: "#[sync(with = ...)] is not supported in v1".to_owned(),
                },
            );
        }
        if field.is_included() {
            proof {
                lemma_pairs_map_lookup(wire_names@, field.wire_name@);
            }
            match find_last_key(&wire_names, &field.wire_name) {
                Some(k) => {
                    let message = "wire name collision for `".to_owned().concat(field.wire_name.as_str()).concat(
                        "` between fields `",
                    ).concat(wire_names[k].1.as_str()).concat("` and `").concat(field.ident.as_str()).concat(
                        "`",
                    );
                    errors.push(Diagnostic { at: field.ident.clone(), message });
                },
                None => {},
            }
            let ghost pairs_before = wire_names@;
            wire_names.push((field.wire_name.clone(), field.ident.clone()));
            assert(wire_names@.drop_last() =~= pairs_before);
        }
        proof {
            let after = check_fields(state.fields@.take(i as int + 1));
            assert(after == check_field(before, state.fields@[i as int]));
            assert(diagnostics_match(errors@, after.errors));
            assert(pairs_map(wire_names@) == after.wire_names);
        }
        i = i + 1;
    }
    assert(state.fields@.take(state.fields@.len() as int) =~= state.fields@);
    if errors.len() == 0 {
        Ok(())
    } else {
        Err(errors)
    }
}

/// Whether the fields pass every check: at most one id field, no field both
/// id and skipped, no `with`, and no two included fields under one wire name.
pub open spec fn fields_consistent(fields: Seq<ParsedField>) -> bool {
    &&& forall|i: int, j: int|
        0 <= i < j < fields.len() && #[trigger] fields[i].included() && #[trigger] fields[j].included()
            ==> fields[i].wire_name@ != fields[j].wire_name@
    &&& forall|i: int, j: int|
        0 <= i < j < fields.len() ==> !(#[trigger] fields[i].attrs.is_id && #[trigger] fields[j].attrs.is_id)
    &&& forall|i: int| 0 <= i < fields.len() ==> !(#[trigger] fields[i].attrs.is_id && fields[i].attrs.is_skip)
    &&& forall|i: int| 0 <= i < fields.len() ==> (#[trigger] fields[i].attrs.with) is None
}

proof fn lemma_check_field_keeps_errors(state: CheckState, field: ParsedField)
    ensures
        check_field(state, field).errors.len() >= state.errors.len(),
{
}

proof fn lemma_check_fields_remembers(fields: Seq<ParsedField>)
    ensures
        forall|w: Seq<char>|
            #[trigger] check_fields(fields).wire_names.contains_key(w) <==> exists|i: int|
                0 <= i < fields.len() && #[trigger] fields[i].included() && fields[i].wire_name@ == w,
        check_fields(fields).id_field is Some <==> exists|i: int|
            0 <= i < fields.len() && #[trigger] fields[i].attrs.is_id,
    decreases fields.len(),
{
    if fields.len() > 0 {
        let prefix = fields.drop_last();
        lemma_check_fields_remembers(prefix);
        assert forall|w: Seq<char>|
            #[trigger] check_fields(fields).wire_names.contains_key(w) <==> exists|i: int|
                0 <= i < fields.len() && #[trigger] fields[i].included() && fields[i].wire_name@ == w by {
            if check_fields(fields).wire_names.contains_key(w) {
                if check_fields(prefix).wire_names.contains_key(w) {
                    let i = choose|i: int|
                        0 <= i < prefix.len() && #[trigger] prefix[i].included() && prefix[i].wire_name@ == w;
                    assert(fields[i] == prefix[i]);
                } else {
                    assert(fields[fields.len() - 1].included());
                }
            }
            if exists|i: int| 0 <= i < fields.len() && #[trigger] fields[i].included() && fields[i].wire_name@ == w {
                let i = choose|i: int|
                    0 <= i < fields.len() && #[trigger] fields[i].included() && fields[i].wire_name@ == w;
                if i < fields.len() - 1 {
                    assert(prefix[i] == fields[i]);
                    assert(prefix[i].included());
                }
            }
        }
        if exists|i: int| 0 <= i < fields.len() && #[trigger] fields[i].attrs.is_id {
            let i = choose|i: int| 0 <= i < fields.len() && #[trigger] fields[i].attrs.is_id;
            if i < fields.len() - 1 {
                assert(prefix[i] == fields[i]);
                assert(prefix[i].attrs.is_id);
            }
        }
        if check_fields(prefix).id_field is Some {
            let i = choose|i: int| 0 <= i < prefix.len() && #[trigger] prefix[i].attrs.is_id;
            assert(fields[i] == prefix[i]);
        }
    }
}

/// A struct whose checks report no error has at most one id field, no
/// field both id and skipped, no `with`, and distinct wire names among the
/// fields that take part in syncing.
pub proof fn lemma_checked_fields_are_consistent(fields: Seq<ParsedField>)
    requires
        check_fields(fields).errors.len() == 0,
    ensures
        fields_consistent(fields),
    decreases fields.len(),
{
    if fields.len() > 0 {
        let prefix = fields.drop_last();
        let last = fields.last();
        lemma_check_field_keeps_errors(check_fields(prefix), last);
        lemma_checked_fields_are_consistent(prefix);
        lemma_check_fields_remembers(prefix);
        let n = fields.len() - 1;
        assert(fields[n] == last);
        assert forall|i: int, j: int|
            0 <= i < j < fields.len() && #[trigger] fields[i].included() && #[trigger] fields[j].included()
                implies fields[i].wire_name@ != fields[j].wire_name@ by {
            assert(fields[i] == prefix[i]);
            if j < n {
                assert(fields[j] == prefix[j]);
                assert(prefix[i].included() && prefix[j].included());
            } else {
                if fields[i].wire_name@ == fields[j].wire_name@ {
                    assert(prefix[i].included());
                    assert(check_fields(prefix).wire_names.contains_key(last.wire_name@));
                }
            }
        }
        assert forall|i: int, j: int|
            0 <= i < j < fields.len() implies !(#[trigger] fields[i].attrs.is_id && #[trigger] fields[j].attrs.is_id) by {
            assert(fields[i] == prefix[i]);
            if j < n {
                assert(fields[j] == prefix[j]);
                assert(!(prefix[i].attrs.is_id && prefix[j].attrs.is_id));
            } else if fields[i].attrs.is_id && last.attrs.is_id {
                assert(prefix[i].attrs.is_id);
                assert(check_fields(prefix).id_field is Some);
            }
        }
        assert forall|i: int| 0 <= i < fields.len() implies !(#[trigger] fields[i].attrs.is_id && fields[i].attrs.is_skip) by {
            if i < n {
                assert(fields[i] == prefix[i]);
                assert(!(prefix[i].attrs.is_id && prefix[i].attrs.is_skip));
            }
        }
        assert forall|i: int| 0 <= i < fields.len() implies (#[trigger] fields[i].attrs.with) is None by {
            if i < n {
                assert(fields[i] == prefix[i]);
                assert(prefix[i].attrs.with is None);
            }
        }
    }
}

} // verus!
