//! What each item the derive generates covers, field by field.

use vstd::prelude::*;
use crate::derive_plan::attrs::Diagnostic;
use crate::derive_plan::state::{
    parse_state, read_fails_with, reads_state, DeriveInput, FieldType, ParsedField, ParsedState,
};
use crate::derive_plan::validate::{
    check_fields, diagnostics_match, fields_consistent, lemma_checked_fields_are_consistent,
    validate_state,
};
use crate::text::{char_text, text_eq};

verus! {

/// The chars that `char::to_uppercase` yields for `c`.
pub uninterp spec fn char_uppercase(c: char) -> Seq<char>;

/// Calls `char::to_uppercase` and collects what it yields. Claimed: the
/// result is the named uppercase mapping.
#[verifier::external_body]
fn uppercase_text(c: char) -> (r: String)
    ensures
        r@ == char_uppercase(c),
{
    c.to_uppercase().collect()
}

/// The PascalCase name of a snake_case name, as it stands after the first
/// `i` chars: underscores are dropped and the char after each underscore
/// (and the first char) is uppercased.
pub open spec fn pascal_prefix(name: Seq<char>, i: nat) -> (Seq<char>, bool)
    decreases i,
{
    if i == 0 {
        (Seq::empty(), true)
    } else {
        let (out, upper_next) = pascal_prefix(name, (i - 1) as nat);
        let c = name[i - 1];
        if c == '_' {
            (out, true)
        } else if upper_next {
            (out + char_uppercase(c), false)
        } else {
            (out.push(c), false)
        }
    }
}

/// The PascalCase form of a snake_case name.
pub open spec fn pascal_case(name: Seq<char>) -> Seq<char> {
    pascal_prefix(name, name.len()).0
}

/// Converts a snake_case name to PascalCase.
pub fn to_pascal_case(name: &str) -> (r: String)
    ensures
        r@ == pascal_case(name@),
{
    let n = name.unicode_len();
    let mut out = String::new();
    let mut uppercase_next = true;
    let mut i: usize = 0;
    while i < n
        invariant
            n == name@.len(),
            i <= n,
            (out@, uppercase_next) == pascal_prefix(name@, i as nat),
        decreases n - i,
    {
        let c = name.get_char(i);
        if c == '_' {
            uppercase_next = true;
        } else if uppercase_next {
            let upper = uppercase_text(c);
            out = out.concat(upper.as_str());
            uppercase_next = false;
        } else {
            let single = char_text(c);
            out = out.concat(single.as_str());
            uppercase_next = false;
        }
        i = i + 1;
    }
    out
}

/// Whether the field's type is `SyncableVec<T>`, whose elements need a
/// stable identity.
pub open spec fn syncable_vec_type(ty: FieldType) -> bool {
    ty.last_segment matches Some(name) && name@ == "SyncableVec"@ && ty.first_arg_is_type
}

pub fn is_syncable_vec(ty: &FieldType) -> (r: bool)
    ensures
        r == syncable_vec_type(*ty),
{
    match &ty.last_segment {
        Some(name) => text_eq(name.as_str(), "SyncableVec") && ty.first_arg_is_type,
        None => false,
    }
}

/// Which fields a generated item covers.
#[derive(Debug, Clone, Copy, PartialEq, Eq, Structural)]
pub enum FieldSelection {
    /// Fields that take part in syncing.
    Included,
    /// Included fields other than the id: the ones with their own sync paths.
    Routable,
    /// Skipped fields.
    Skipped,
    /// Fields of type `SyncableVec<T>`.
    SyncableVecs,
}

/// Whether `selection` covers `field`.
pub open spec fn selects(selection: FieldSelection, field: ParsedField) -> bool {
    match selection {
        FieldSelection::Included => field.included(),
        FieldSelection::Routable => field.routable(),
        FieldSelection::Skipped => field.attrs.is_skip,
        FieldSelection::SyncableVecs => syncable_vec_type(field.ty),
    }
}

/// The positions among the first `n` fields that `selection` covers, in order.
pub open spec fn selected_positions(
    fields: Seq<ParsedField>,
    selection: FieldSelection,
    n: nat,
) -> Seq<usize>
    decreases n,
{
    if n == 0 {
        Seq::empty()
    } else {
        let rest = selected_positions(fields, selection, (n - 1) as nat);
        if selects(selection, fields[n - 1]) {
            rest.push((n - 1) as usize)
        } else {
            rest
        }
    }
}

/// The positions of the fields that `selection` covers, in field order.
pub fn select_fields(state: &ParsedState, selection: FieldSelection) -> (r: Vec<usize>)
    ensures
        r@ == selected_positions(state.fields@, selection, state.fields@.len()),
{
    let mut positions: Vec<usize> = Vec::new();
    let mut i: usize = 0;
    while i < state.fields.len()
        invariant
            i <= state.fields@.len(),
            positions@ == selected_positions(state.fields@, selection, i as nat),
        decreases state.fields@.len() - i,
    {
        let field = &state.fields[i];
        let chosen = match selection {
            FieldSelection::Included => field.is_included(),
            FieldSelection::Routable => field.is_routable(),
            FieldSelection::Skipped => field.attrs.is_skip,
            FieldSelection::SyncableVecs => is_syncable_vec(&field.ty),
        };
        if chosen {
            positions.push(i);
        }
        i = i + 1;
    }
    positions
}

/// The position of the first `#[sync(id)]` field among the first `n`, if any.
pub open spec fn first_id_position(fields: Seq<ParsedField>, n: nat) -> Option<usize>
    decreases n,
{
    if n == 0 {
        None
    } else {
        match first_id_position(fields, (n - 1) as nat) {
            Some(p) => Some(p),
            None => if fields[n - 1].attrs.is_id {
                Some((n - 1) as usize)
            } else {
                None
            },
        }
    }
}

/// The field that gives the struct its stable id: the first `#[sync(id)]` field.
pub fn stable_id_field(state: &ParsedState) -> (r: Option<usize>)
    ensures
        r == first_id_position(state.fields@, state.fields@.len()),
{
    let mut i: usize = 0;
    while i < state.fields.len()
        invariant
            i <= state.fields@.len(),
            first_id_position(state.fields@, i as nat) is None,
        decreases state.fields@.len() - i,
    {
        if state.fields[i].attrs.is_id {
            proof {
                lemma_first_id_position_stays(state.fields@, i as nat + 1, state.fields@.len());
            }
            return Some(i);
        }
        i = i + 1;
    }
    None
}

proof fn lemma_first_id_position_stays(fields: Seq<ParsedField>, n: nat, m: nat)
    requires
        n <= m,
        first_id_position(fields, n) is Some,
    ensures
        first_id_position(fields, m) == first_id_position(fields, n),
    decreases m - n,
{
    if n < m {
        lemma_first_id_position_stays(fields, n, (m - 1) as nat);
    }
}

/// The name of the assertion struct that holds a `SyncableVec` field's
/// elements to the stable-id contract.
pub open spec fn vec_identity_assertion_name(field_ident: Seq<char>) -> Seq<char> {
    "SyncableStateField"@ + pascal_case(field_ident) + "VecElementsMustHaveSyncIdStableIdContract"@
}

/// For each `SyncableVec` field, in order, the field's position and the name
/// of the assertion struct generated for it.
pub fn vec_identity_assertions(state: &ParsedState) -> (r: Vec<(usize, String)>)
    ensures
        r@.len() == selected_positions(state.fields@, FieldSelection::SyncableVecs, state.fields@.len()).len(),
        forall|k: int|
            0 <= k < r@.len() ==> {
                let p = selected_positions(state.fields@, FieldSelection::SyncableVecs, state.fields@.len())[k];
                &&& (#[trigger] r@[k]).0 == p
                &&& r@[k].1@ == vec_identity_assertion_name(state.fields@[p as int].ident@)
            },
{
    let positions = select_fields(state, FieldSelection::SyncableVecs);
    let count = state.fields.len();
    proof {
        lemma_selected_positions_in_range(state.fields@, FieldSelection::SyncableVecs, state.fields@.len());
    }
    let mut names: Vec<(usize, String)> = Vec::new();
    let mut k: usize = 0;
    while k < positions.len()
        invariant
            k <= positions@.len(),
            positions@ == selected_positions(state.fields@, FieldSelection::SyncableVecs, state.fields@.len()),
            forall|j: int| 0 <= j < positions@.len() ==> #[trigger] positions@[j] < state.fields@.len(),
            names@.len() == k,
            forall|j: int|
                0 <= j < k ==> {
                    &&& (#[trigger] names@[j]).0 == positions@[j]
                    &&& names@[j].1@ == vec_identity_assertion_name(state.fields@[positions@[j] as int].ident@)
                },
        decreases positions@.len() - k,
    {
        let p = positions[k];
        let pascal = to_pascal_case(state.fields[p].ident.as_str());
        let name = "SyncableStateField".to_owned().concat(pascal.as_str()).concat(
            "VecElementsMustHaveSyncIdStableIdContract",
        );
        names.push((p, name));
        k = k + 1;
    }
    names
}

proof fn lemma_selected_positions_in_range(fields: Seq<ParsedField>, selection: FieldSelection, n: nat)
    requires
        n <= usize::MAX,
    ensures
        forall|j: int|
            0 <= j < selected_positions(fields, selection, n).len() ==> #[trigger] selected_positions(
                fields,
                selection,
                n,
            )[j] < n,
    decreases n,
{
    if n > 0 {
        lemma_selected_positions_in_range(fields, selection, (n - 1) as nat);
        let rest = selected_positions(fields, selection, (n - 1) as nat);
        let all = selected_positions(fields, selection, n);
        assert forall|j: int| 0 <= j < all.len() implies #[trigger] all[j] < n by {
            if j < rest.len() {
                assert(all[j] == rest[j]);
            } else {
                assert(all[j] == (n - 1) as usize);
            }
        }
    }
}

/// Everything the generated code is built from.
#[derive(Debug)]
pub struct ExpansionPlan {
    /// The struct with its fields read.
    pub state: ParsedState,
    /// Each `SyncableVec` field with the name of its assertion struct.
    pub vec_identity_assertions: Vec<(usize, String)>,
    /// Fields in the snapshot, the schema and the snapshot encoding.
    pub included: Vec<usize>,
    /// Fields with their own sync paths: rebinding, routing and their trait bounds.
    pub routable: Vec<usize>,
    /// Fields filled with their default when decoding a snapshot.
    pub skipped: Vec<usize>,
    /// The field that gives the stable id, when there is one.
    pub stable_id: Option<usize>,
}

/// Whether `plan` is what the struct `state` calls for.
pub open spec fn plans(plan: ExpansionPlan, state: ParsedState) -> bool {
    let n = state.fields@.len();
    &&& plan.state == state
    &&& plan.included@ == selected_positions(state.fields@, FieldSelection::Included, n)
    &&& plan.routable@ == selected_positions(state.fields@, FieldSelection::Routable, n)
    &&& plan.skipped@ == selected_positions(state.fields@, FieldSelection::Skipped, n)
    &&& plan.stable_id == first_id_position(state.fields@, n)
    &&& plan.vec_identity_assertions@.len() == selected_positions(
        state.fields@,
        FieldSelection::SyncableVecs,
        n,
    ).len()
    &&& forall|k: int|
        0 <= k < plan.vec_identity_assertions@.len() ==> {
            let p = selected_positions(state.fields@, FieldSelection::SyncableVecs, n)[k];
            &&& (#[trigger] plan.vec_identity_assertions@[k]).0 == p
            &&& plan.vec_identity_assertions@[k].1@ == vec_identity_assertion_name(
                state.fields@[p as int].ident@,
            )
        }
}

/// Reads and checks the struct, then plans the generated items. A read
/// failure gives its one diagnostic; failed checks give all of theirs, in
/// field order.
pub fn plan_expansion(input: DeriveInput) -> (r: Result<ExpansionPlan, Vec<Diagnostic>>)
    ensures
        match r {
            Ok(plan) => reads_state(input, plan.state) && check_fields(plan.state.fields@).errors.len()
                == 0 && fields_consistent(plan.state.fields@) && plans(plan, plan.state),
            Err(found) => (found@.len() == 1 && read_fails_with(input, found@[0])) || exists|
                state: ParsedState,
            |
                #[trigger] reads_state(input, state) && check_fields(state.fields@).errors.len() > 0
                    && diagnostics_match(found@, check_fields(state.fields@).errors),
        },
{
    let ghost original = input;
    let state = match parse_state(input) {
        Ok(state) => state,
        Err(d) => {
            let mut found: Vec<Diagnostic> = Vec::new();
            found.push(d);
            return Err(found);
        },
    };
    match validate_state(&state) {
        Ok(()) => {},
        Err(found) => {
            assert(reads_state(original, state));
            return Err(found);
        },
    }
    proof {
        lemma_checked_fields_are_consistent(state.fields@);
    }
    let vec_identity_assertions = vec_identity_assertions(&state);
    let included = select_fields(&state, FieldSelection::Included);
    let routable = select_fields(&state, FieldSelection::Routable);
    let skipped = select_fields(&state, FieldSelection::Skipped);
    let stable_id = stable_id_field(&state);
    Ok(ExpansionPlan { state, vec_identity_assertions, included, routable, skipped, stable_id })
}

} // verus!
