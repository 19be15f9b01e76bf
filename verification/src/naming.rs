//! Field names, and why no path is derived twice.
//!
//! A path starts with the name of the field that contributes it. Where the
//! fields of each record are named apart and no name holds a dot, a path
//! shows which field it came from, so no two declarations of a type share
//! one.

use crate::definition::{FieldDefinition, FieldRule, IndexKind, Shape, TypeDefinition};
use crate::derive::{
    all_prefixed, applicable_rule, derivation, field_paths, fields_paths, prefixed, type_paths,
};
use vstd::prelude::*;
use vstd::seq_lib::lemma_no_dup_in_concat;

verus! {

/// Whether the named fields among `fields` have names of their own.
pub open spec fn names_distinct(fields: Seq<FieldDefinition>) -> bool {
    forall|i: int, j: int|
        #![trigger fields[i], fields[j]]
        0 <= i < j < fields.len() && fields[i].name is Some && fields[j].name is Some
            ==> fields[i].name->0@ != fields[j].name->0@
}

/// Whether a field's name holds no dot and, where the field's type is
/// looked at, that type is well named.
pub open spec fn field_well_named(field: FieldDefinition) -> bool
    decreases field, 0nat,
{
    match field.name {
        None => true,
        Some(name) => !name@.contains('.') && match field.nested {
            Some(inner) => applicable_rule(field.annotations@) != FieldRule::Nested
                || well_named(inner),
            None => true,
        },
    }
}

/// Whether the first `count` fields are well named.
pub open spec fn fields_well_named(fields: Seq<FieldDefinition>, count: nat) -> bool
    decreases fields, count,
{
    if count == 0 || count > fields.len() {
        true
    } else {
        fields_well_named(fields, (count - 1) as nat) && field_well_named(fields[count - 1])
    }
}

/// Whether a type is well named: the fields of a record have names of
/// their own, without dots, and so have the fields of the types that the
/// derivation looks at.
pub open spec fn well_named(def: TypeDefinition) -> bool
    decreases def, 0nat,
{
    match def.shape {
        Shape::Enum => true,
        Shape::Union => true,
        Shape::Record(fields) => names_distinct(fields@) && fields_well_named(
            fields@,
            fields@.len(),
        ),
    }
}

/// Whether a path came from a field of the given name: it is the name, or
/// the name and a dot and more.
pub open spec fn owns(name: Seq<char>, path: Seq<char>) -> bool {
    path == name || (path.len() > name.len() && path.take(name.len() as int) == name
        && path[name.len() as int] == '.')
}

/// Whether a path came from the given field.
pub open spec fn field_owns(field: FieldDefinition, path: Seq<char>) -> bool {
    field.name is Some && owns(field.name->0@, path)
}

/// Whether a path came from one of the first `count` fields.
pub open spec fn owned_among(fields: Seq<FieldDefinition>, count: nat, path: Seq<char>) -> bool {
    exists|i: int| 0 <= i < count && i < fields.len() && #[trigger] field_owns(fields[i], path)
}

/// Whether three sequences of paths hold no path twice, neither within one
/// of them nor between two.
pub open spec fn separate(
    plain: Seq<Seq<char>>,
    unique: Seq<Seq<char>>,
    sparse: Seq<Seq<char>>,
) -> bool {
    &&& plain.no_duplicates()
    &&& unique.no_duplicates()
    &&& sparse.no_duplicates()
    &&& plain.disjoint(unique)
    &&& plain.disjoint(sparse)
    &&& unique.disjoint(sparse)
}

/// The paths of the three kinds that the first `count` fields contribute
/// are separate.
pub open spec fn fields_separate(fields: Seq<FieldDefinition>, count: nat) -> bool {
    separate(
        fields_paths(fields, count, IndexKind::Plain),
        fields_paths(fields, count, IndexKind::Unique),
        fields_paths(fields, count, IndexKind::Sparse),
    )
}

/// A path behind a field's name came from that field.
proof fn lemma_prefixed_is_owned(name: Seq<char>, path: Seq<char>)
    ensures
        owns(name, prefixed(name, path)),
{
    let joined = prefixed(name, path);
    assert(joined.take(name.len() as int) =~= name);
    assert(joined[name.len() as int] == '.');
}

/// The path behind a field's name is found again in the joined path.
proof fn lemma_prefixed_is_injective(name: Seq<char>, left: Seq<char>, right: Seq<char>)
    requires
        prefixed(name, left) == prefixed(name, right),
    ensures
        left == right,
{
    assert(prefixed(name, left).skip((name.len() + 1) as int) =~= left);
    assert(prefixed(name, right).skip((name.len() + 1) as int) =~= right);
}

/// Every path that a field contributes came from it.
proof fn lemma_field_paths_are_owned(field: FieldDefinition, kind: IndexKind, i: int)
    requires
        0 <= i < field_paths(field, kind).len(),
    ensures
        field_owns(field, field_paths(field, kind)[i]),
{
    let name = field.name->0@;
    if applicable_rule(field.annotations@) == FieldRule::Nested {
        let inner = type_paths(field.nested->0, kind);
        assert(field_paths(field, kind)[i] == prefixed(name, inner[i]));
        lemma_prefixed_is_owned(name, inner[i]);
    }
}

/// A path came from one name only, among names without dots.
proof fn lemma_owner_is_unique(first: Seq<char>, second: Seq<char>, path: Seq<char>)
    requires
        !first.contains('.'),
        !second.contains('.'),
        owns(first, path),
        owns(second, path),
    ensures
        first == second,
{
    if path == first && path != second {
        assert(first[second.len() as int] == '.');
    } else if path == second && path != first {
        assert(second[first.len() as int] == '.');
    } else if path != first && path != second {
        if first.len() < second.len() {
            assert(second[first.len() as int] == path.take(second.len() as int)[first.len() as int]);
            assert(second[first.len() as int] == '.');
        } else if second.len() < first.len() {
            assert(first[second.len() as int] == path.take(first.len() as int)[second.len() as int]);
            assert(first[second.len() as int] == '.');
        }
    }
}

/// Each of the first `count` fields of well named fields is well named.
proof fn lemma_each_field_well_named(fields: Seq<FieldDefinition>, count: nat, i: int)
    requires
        count <= fields.len(),
        fields_well_named(fields, count),
        0 <= i < count,
    ensures
        field_well_named(fields[i]),
    decreases count,
{
    if i < count - 1 {
        lemma_each_field_well_named(fields, (count - 1) as nat, i);
    }
}

/// Separate sequences stay separate behind a common field name.
proof fn lemma_prefixed_stay_separate(
    name: Seq<char>,
    plain: Seq<Seq<char>>,
    unique: Seq<Seq<char>>,
    sparse: Seq<Seq<char>>,
)
    requires
        separate(plain, unique, sparse),
    ensures
        separate(
            all_prefixed(name, plain),
            all_prefixed(name, unique),
            all_prefixed(name, sparse),
        ),
{
    assert forall|left: Seq<char>, right: Seq<char>|
        prefixed(name, left) == prefixed(name, right) implies left == right by {
        lemma_prefixed_is_injective(name, left, right);
    }
}

/// Two triples of separate sequences, no path of the first triple in the
/// second, give a separate triple when joined kind by kind.
proof fn lemma_joined_stay_separate(
    plain: Seq<Seq<char>>,
    unique: Seq<Seq<char>>,
    sparse: Seq<Seq<char>>,
    more_plain: Seq<Seq<char>>,
    more_unique: Seq<Seq<char>>,
    more_sparse: Seq<Seq<char>>,
)
    requires
        separate(plain, unique, sparse),
        separate(more_plain, more_unique, more_sparse),
        (plain + unique + sparse).disjoint(more_plain + more_unique + more_sparse),
    ensures
        separate(plain + more_plain, unique + more_unique, sparse + more_sparse),
{
    let before = plain + unique + sparse;
    let after = more_plain + more_unique + more_sparse;
    assert forall|i: int, j: int| 0 <= i < plain.len() && 0 <= j < after.len() implies plain[i]
        != after[j] by {
        assert(before[i] == plain[i]);
    }
    assert forall|i: int, j: int| 0 <= i < unique.len() && 0 <= j < after.len() implies unique[i]
        != after[j] by {
        assert(before[plain.len() + i] == unique[i]);
    }
    assert forall|i: int, j: int| 0 <= i < sparse.len() && 0 <= j < after.len() implies sparse[i]
        != after[j] by {
        assert(before[plain.len() + unique.len() + i] == sparse[i]);
    }
    assert forall|j: int| 0 <= j < more_plain.len() implies after[j] == more_plain[j] by {}
    assert forall|j: int| 0 <= j < more_unique.len() implies after[more_plain.len() + j]
        == more_unique[j] by {}
    assert forall|j: int| 0 <= j < more_sparse.len() implies after[more_plain.len()
        + more_unique.len() + j] == more_sparse[j] by {}
    let second = more_plain.len() as int;
    let third = (more_plain.len() + more_unique.len()) as int;
    lemma_disjoint_from_part(plain, after, more_plain, 0);
    lemma_disjoint_from_part(plain, after, more_unique, second);
    lemma_disjoint_from_part(plain, after, more_sparse, third);
    lemma_disjoint_from_part(unique, after, more_plain, 0);
    lemma_disjoint_from_part(unique, after, more_unique, second);
    lemma_disjoint_from_part(unique, after, more_sparse, third);
    lemma_disjoint_from_part(sparse, after, more_plain, 0);
    lemma_disjoint_from_part(sparse, after, more_unique, second);
    lemma_disjoint_from_part(sparse, after, more_sparse, third);
    lemma_no_dup_in_concat(plain, more_plain);
    lemma_no_dup_in_concat(unique, more_unique);
    lemma_no_dup_in_concat(sparse, more_sparse);
    lemma_joined_disjoint(plain, more_plain, unique, more_unique);
    lemma_joined_disjoint(plain, more_plain, sparse, more_sparse);
    lemma_joined_disjoint(unique, more_unique, sparse, more_sparse);
}

/// A sequence that shares nothing with a whole shares nothing with a part
/// of it.
proof fn lemma_disjoint_from_part(
    paths: Seq<Seq<char>>,
    whole: Seq<Seq<char>>,
    part: Seq<Seq<char>>,
    offset: int,
)
    requires
        forall|i: int, j: int| 0 <= i < paths.len() && 0 <= j < whole.len() ==> paths[i] != whole[j],
        0 <= offset,
        offset + part.len() <= whole.len(),
        forall|j: int| 0 <= j < part.len() ==> whole[offset + j] == part[j],
    ensures
        paths.disjoint(part),
        part.disjoint(paths),
{
    assert forall|i: int, j: int| 0 <= i < paths.len() && 0 <= j < part.len() implies paths[i]
        != part[j] by {
        assert(whole[offset + j] == part[j]);
    }
}

/// Two joined sequences share nothing where none of their four parts
/// shares anything with a part of the other.
proof fn lemma_joined_disjoint(
    left: Seq<Seq<char>>,
    more_left: Seq<Seq<char>>,
    right: Seq<Seq<char>>,
    more_right: Seq<Seq<char>>,
)
    requires
        left.disjoint(right),
        left.disjoint(more_right),
        more_left.disjoint(right),
        more_left.disjoint(more_right),
    ensures
        (left + more_left).disjoint(right + more_right),
{
    assert forall|i: int, j: int|
        0 <= i < (left + more_left).len() && 0 <= j < (right + more_right).len() implies (left
        + more_left)[i] != (right + more_right)[j] by {
        if i < left.len() {
            if j < right.len() {
                assert(left[i] != right[j]);
            } else {
                assert(left[i] != more_right[j - right.len()]);
            }
        } else {
            if j < right.len() {
                assert(more_left[i - left.len()] != right[j]);
            } else {
                assert(more_left[i - left.len()] != more_right[j - right.len()]);
            }
        }
    }
}


/// The paths that one well named field contributes are separate.
proof fn lemma_field_is_separate(field: FieldDefinition)
    requires
        field_well_named(field),
    ensures
        separate(
            field_paths(field, IndexKind::Plain),
            field_paths(field, IndexKind::Unique),
            field_paths(field, IndexKind::Sparse),
        ),
    decreases field, 0nat,
{
    match field.name {
        None => {},
        Some(name) => {
            if applicable_rule(field.annotations@) == FieldRule::Nested {
                match field.nested {
                    Some(inner) => {
                        lemma_type_is_separate(inner);
                        lemma_prefixed_stay_separate(
                            name@,
                            type_paths(inner, IndexKind::Plain),
                            type_paths(inner, IndexKind::Unique),
                            type_paths(inner, IndexKind::Sparse),
                        );
                    },
                    None => {},
                }
            }
        },
    }
}

/// The paths that the first `count` of well named fields contribute are
/// separate, and each came from one of these fields.
proof fn lemma_fields_are_separate(fields: Seq<FieldDefinition>, count: nat)
    requires
        count <= fields.len(),
        names_distinct(fields),
        fields_well_named(fields, count),
    ensures
        fields_separate(fields, count),
        forall|kind: IndexKind, i: int|
            0 <= i < fields_paths(fields, count, kind).len() ==> owned_among(
                fields,
                count,
                #[trigger] fields_paths(fields, count, kind)[i],
            ),
    decreases fields, count,
{
    if count > 0 {
        let fewer = (count - 1) as nat;
        let last = fields[count - 1];
        lemma_fields_are_separate(fields, fewer);
        lemma_field_is_separate(last);
        let plain = fields_paths(fields, fewer, IndexKind::Plain);
        let unique = fields_paths(fields, fewer, IndexKind::Unique);
        let sparse = fields_paths(fields, fewer, IndexKind::Sparse);
        let more_plain = field_paths(last, IndexKind::Plain);
        let more_unique = field_paths(last, IndexKind::Unique);
        let more_sparse = field_paths(last, IndexKind::Sparse);
        let before = plain + unique + sparse;
        let after = more_plain + more_unique + more_sparse;
        assert forall|i: int| 0 <= i < before.len() implies owned_among(
            fields,
            fewer,
            #[trigger] before[i],
        ) by {
            if i < plain.len() {
                assert(before[i] == plain[i]);
            } else if i < plain.len() + unique.len() {
                assert(before[i] == unique[i - plain.len()]);
            } else {
                assert(before[i] == sparse[i - plain.len() - unique.len()]);
            }
        }
        assert forall|j: int| 0 <= j < after.len() implies field_owns(last, #[trigger] after[j]) by {
            if j < more_plain.len() {
                lemma_field_paths_are_owned(last, IndexKind::Plain, j);
            } else if j < more_plain.len() + more_unique.len() {
                lemma_field_paths_are_owned(last, IndexKind::Unique, j - more_plain.len());
            } else {
                lemma_field_paths_are_owned(
                    last,
                    IndexKind::Sparse,
                    j - more_plain.len() - more_unique.len(),
                );
            }
        }
        assert forall|i: int, j: int| 0 <= i < before.len() && 0 <= j < after.len() implies before[i]
            != after[j] by {
            assert(owned_among(fields, fewer, before[i]));
            let owner = choose|owner: int|
                0 <= owner < fewer && owner < fields.len() && #[trigger] field_owns(
                    fields[owner],
                    before[i],
                );
            assert(field_owns(last, after[j]));
            if before[i] == after[j] {
                lemma_each_field_well_named(fields, count, owner);
                lemma_each_field_well_named(fields, count, count - 1);
                lemma_owner_is_unique(fields[owner].name->0@, last.name->0@, before[i]);
            }
        }
        lemma_joined_stay_separate(plain, unique, sparse, more_plain, more_unique, more_sparse);
        assert forall|kind: IndexKind, i: int|
            0 <= i < fields_paths(fields, count, kind).len() implies owned_among(
            fields,
            count,
            #[trigger] fields_paths(fields, count, kind)[i],
        ) by {
            let path = fields_paths(fields, count, kind)[i];
            let earlier = fields_paths(fields, fewer, kind);
            if i < earlier.len() {
                assert(owned_among(fields, fewer, earlier[i]));
                let owner = choose|owner: int|
                    0 <= owner < fewer && owner < fields.len() && #[trigger] field_owns(
                        fields[owner],
                        path,
                    );
                assert(field_owns(fields[owner], path));
            } else {
                lemma_field_paths_are_owned(last, kind, i - earlier.len());
                assert(field_owns(fields[count - 1], path));
            }
        }
    }
}

/// The paths of the three kinds that a well named type declares are
/// separate.
proof fn lemma_type_is_separate(def: TypeDefinition)
    requires
        well_named(def),
    ensures
        separate(
            type_paths(def, IndexKind::Plain),
            type_paths(def, IndexKind::Unique),
            type_paths(def, IndexKind::Sparse),
        ),
    decreases def, 1nat,
{
    match def.shape {
        Shape::Enum => {},
        Shape::Union => {},
        Shape::Record(fields) => {
            lemma_fields_are_separate(fields@, fields@.len());
        },
    }
}

/// All the paths that a type declares through its fields: the plain, then
/// the unique, then the sparse ones.
pub open spec fn declared_paths(def: TypeDefinition) -> Seq<Seq<char>> {
    type_paths(def, IndexKind::Plain) + type_paths(def, IndexKind::Unique) + type_paths(
        def,
        IndexKind::Sparse,
    )
}

/// No path is derived twice: the paths that a well named type declares,
/// of all three kinds taken together, are pairwise different, and so are
/// the paths of the bundle that the type derives to.
pub proof fn lemma_paths_are_unique(def: TypeDefinition)
    requires
        well_named(def),
    ensures
        declared_paths(def).no_duplicates(),
        derivation(def) matches Ok(bundle) ==> (bundle.indexes + bundle.unique_indexes
            + bundle.sparse_indexes).no_duplicates(),
{
    lemma_type_is_separate(def);
    let plain = type_paths(def, IndexKind::Plain);
    let unique = type_paths(def, IndexKind::Unique);
    let sparse = type_paths(def, IndexKind::Sparse);
    lemma_no_dup_in_concat(plain, unique);
    assert forall|i: int, j: int|
        0 <= i < (plain + unique).len() && 0 <= j < sparse.len() implies (plain + unique)[i]
        != sparse[j] by {
        if i < plain.len() {
            assert(plain[i] != sparse[j]);
        } else {
            assert(unique[i - plain.len()] != sparse[j]);
        }
    }
    lemma_no_dup_in_concat(plain + unique, sparse);
}

} // verus!
