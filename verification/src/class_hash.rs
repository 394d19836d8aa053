//! The hash that identifies a Cairo 0 class.
use crate::contract_class::{
    opt_table_view, table_view, ContractClass, ContractClassView, ContractEntryPoint,
    ContractEntryPointView,
};
use crate::felt::{felts_view, Felt};
use crate::hash_utils::{compute_hash_on_elements, hash_on_elements};
use vstd::prelude::*;

verus! {

/// The rows of a table written out: selector, offset, selector, offset.
pub open spec fn flat_table(table: Seq<ContractEntryPointView>) -> Seq<nat>
    decreases table.len(),
{
    if table.len() == 0 {
        Seq::empty()
    } else {
        flat_table(table.drop_last()).push(table.last().selector).push(table.last().offset)
    }
}

/// The rows of a table that may be missing, written out; a missing table has
/// no rows.
pub open spec fn flat_opt_table(table: Option<Seq<ContractEntryPointView>>) -> Seq<nat> {
    match table {
        Some(t) => flat_table(t),
        None => Seq::empty(),
    }
}

/// The hash of a Cairo 0 class: the hash of the list of the version zero,
/// the hashes of its three tables, the hash of the names of its builtins,
/// the hash of its program as the compiler hints at it, and the hash of its
/// program data.
pub open spec fn deprecated_class_hash_of(
    class: ContractClassView,
    builtins: Seq<nat>,
    hinted_class_hash: nat,
    data: Seq<nat>,
) -> nat {
    hash_on_elements(
        seq![
            0nat,
            hash_on_elements(flat_opt_table(class.external)),
            hash_on_elements(flat_opt_table(class.l1_handler)),
            hash_on_elements(flat_opt_table(class.constructor)),
            hash_on_elements(builtins),
            hinted_class_hash,
            hash_on_elements(data),
        ],
    )
}

fn hash_table(table: &Option<Vec<ContractEntryPoint>>) -> (r: Felt)
    ensures
        r@ == hash_on_elements(flat_opt_table(opt_table_view(*table))),
{
    let mut flat: Vec<Felt> = Vec::new();
    match table {
        Some(t) => {
            let mut i: usize = 0;
            assert(felts_view(flat@) =~= flat_table(table_view(t@).subrange(0, 0)));
            while i < t.len()
                invariant
                    0 <= i <= t.len(),
                    felts_view(flat@) == flat_table(table_view(t@).subrange(0, i as int)),
                decreases t.len() - i,
            {
                let ghost before = flat@;
                flat.push(t[i].selector);
                flat.push(Felt::from_u64(t[i].offset as u64));
                proof {
                    let next = table_view(t@).subrange(0, i + 1);
                    assert(next.drop_last() =~= table_view(t@).subrange(0, i as int));
                    assert(next.last() == t@[i as int]@);
                    assert(felts_view(flat@) =~= felts_view(before).push(t@[i as int].selector@).push(
                        t@[i as int].offset as nat,
                    ));
                }
                i += 1;
            }
            assert(table_view(t@).subrange(0, t.len() as int) =~= table_view(t@));
        },
        None => {
            assert(felts_view(flat@) =~= Seq::<nat>::empty());
        },
    }
    compute_hash_on_elements(&flat)
}

/// Computes the hash of a Cairo 0 class. The names of the builtins, the hash
/// that the compiler hints at and the data of the program come from the
/// program of the class, which is read elsewhere.
pub fn compute_deprecated_class_hash(
    contract_class: &ContractClass,
    builtins: &Vec<Felt>,
    hinted_class_hash: Felt,
    data: &Vec<Felt>,
) -> (r: Felt)
    ensures
        r@ == deprecated_class_hash_of(
            contract_class@,
            felts_view(builtins@),
            hinted_class_hash@,
            felts_view(data@),
        ),
{
    let mut parts: Vec<Felt> = Vec::new();
    parts.push(Felt::zero());
    parts.push(hash_table(&contract_class.external));
    parts.push(hash_table(&contract_class.l1_handler));
    parts.push(hash_table(&contract_class.constructor));
    parts.push(compute_hash_on_elements(builtins));
    parts.push(hinted_class_hash);
    parts.push(compute_hash_on_elements(data));
    assert(felts_view(parts@) =~= seq![
        0nat,
        hash_on_elements(flat_opt_table(contract_class@.external)),
        hash_on_elements(flat_opt_table(contract_class@.l1_handler)),
        hash_on_elements(flat_opt_table(contract_class@.constructor)),
        hash_on_elements(felts_view(builtins@)),
        hinted_class_hash@,
        hash_on_elements(felts_view(data@)),
    ]);
    compute_hash_on_elements(&parts)
}

} // verus!
