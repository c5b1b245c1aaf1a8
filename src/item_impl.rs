//! The impl-block pipeline: which methods get a builder, how the original
//! and normalized copies line up, and the order of the reassembled block.
use vstd::prelude::*;
use crate::error::BuilderError;

verus! {

/// A method of an impl block, as far as the pipeline reads it.
pub struct ImplFn {
    pub name: String,
    /// The method carries the builder-generation marker.
    pub has_builder_attr: bool,
    /// The method is declared `default`.
    pub is_default: bool,
}

/// An item of an impl block.
pub enum ImplItem {
    Fn(ImplFn),
    /// Constants, types, macro invocations, ...
    Other,
}

/// An impl block: the trait it implements, if any, and its items in order.
pub struct ImplBlock {
    pub trait_path: Option<String>,
    pub items: Vec<ImplItem>,
}

/// The positions of the unmarked items and of the marked methods, each in
/// source order.
pub struct ImplPartition {
    pub other_items: Vec<usize>,
    pub builder_fns: Vec<usize>,
}

/// One item of the reassembled impl block.
#[derive(Clone, Copy, Debug, PartialEq, Eq, Structural)]
pub enum OutputItem {
    /// The original item at this position, untouched.
    Original(usize),
    /// The start function generated for the k-th marked method.
    StartFn(usize),
    /// The adapted body of the k-th marked method.
    AdaptedFn(usize),
}

pub open spec fn is_builder_item(it: ImplItem) -> bool {
    it matches ImplItem::Fn(f) && f.has_builder_attr
}

pub open spec fn has_builder_item(items: Seq<ImplItem>) -> bool {
    exists|i: int| 0 <= i < items.len() && is_builder_item(#[trigger] items[i])
}

/// `idx` lists, in increasing order, exactly the positions of `items` whose
/// marked-ness is `want`.
pub open spec fn lists_positions(idx: Seq<usize>, items: Seq<ImplItem>, want: bool) -> bool {
    &&& forall|k: int| 0 <= k < idx.len() ==> #[trigger] idx[k] < items.len() && is_builder_item(items[idx[k] as int]) == want
    &&& forall|k1: int, k2: int| 0 <= k1 < k2 < idx.len() ==> #[trigger] idx[k1] < #[trigger] idx[k2]
    &&& forall|i: int| 0 <= i < items.len() && is_builder_item(#[trigger] items[i]) == want ==> idx.contains(i as usize)
}

pub open spec fn is_partition(p: ImplPartition, items: Seq<ImplItem>) -> bool {
    lists_positions(p.other_items@, items, false) && lists_positions(p.builder_fns@, items, true)
}

/// The method at position `i` of `items` (meaningful where it is one).
pub open spec fn fn_at(items: Seq<ImplItem>, i: int) -> ImplFn {
    items[i]->Fn_0
}

/// The k-th pair of original and normalized marked methods is defaulted.
pub open spec fn pair_is_default(block: ImplBlock, p: ImplPartition, norm: Seq<ImplFn>, k: int) -> bool {
    norm[k].is_default || fn_at(block.items@, p.builder_fns@[k] as int).is_default
}

/// The name reported for the k-th pair being defaulted: the normalized copy
/// is looked at first.
pub open spec fn default_pair_name(block: ImplBlock, p: ImplPartition, norm: Seq<ImplFn>, k: int) -> Seq<char> {
    if norm[k].is_default {
        norm[k].name@
    } else {
        fn_at(block.items@, p.builder_fns@[k] as int).name@
    }
}

/// The reassembled block: the unmarked items untouched and in order, then for
/// each marked method its start function followed by its adapted body.
pub open spec fn reassembled(other: Seq<usize>, n: nat) -> Seq<OutputItem> {
    other.map_values(|i: usize| OutputItem::Original(i)) + Seq::new(
        2 * n,
        |j: int| if j % 2 == 0 { OutputItem::StartFn((j / 2) as usize) } else { OutputItem::AdaptedFn((j / 2) as usize) },
    )
}

/// Splits an impl block into its marked methods and the rest. A trait impl is
/// refused, and so is a block with no marked method: the marker on the block
/// is then misplaced.
pub fn partition_impl_items(block: &ImplBlock) -> (r: Result<ImplPartition, BuilderError>)
    ensures
        block.trait_path matches Some(p) ==> (r matches Err(BuilderError::TraitImpl { trait_path }) && trait_path@ == p@),
        block.trait_path is None && !has_builder_item(block.items@) ==> r matches Err(BuilderError::NoBuilderFunctions),
        block.trait_path is None && has_builder_item(block.items@) ==> (r matches Ok(p) && is_partition(p, block.items@)),
{
    if let Some(trait_path) = &block.trait_path {
        return Err(BuilderError::TraitImpl { trait_path: trait_path.clone() });
    }
    let mut other_items: Vec<usize> = Vec::new();
    let mut builder_fns: Vec<usize> = Vec::new();
    let mut i: usize = 0;
    while i < block.items.len()
        invariant
            i <= block.items@.len(),
            forall|k: int| 0 <= k < other_items@.len() ==> #[trigger] other_items@[k] < i && !is_builder_item(block.items@[other_items@[k] as int]),
            forall|k1: int, k2: int| 0 <= k1 < k2 < other_items@.len() ==> #[trigger] other_items@[k1] < #[trigger] other_items@[k2],
            forall|j: int| 0 <= j < i && !is_builder_item(#[trigger] block.items@[j]) ==> other_items@.contains(j as usize),
            forall|k: int| 0 <= k < builder_fns@.len() ==> #[trigger] builder_fns@[k] < i && is_builder_item(block.items@[builder_fns@[k] as int]),
            forall|k1: int, k2: int| 0 <= k1 < k2 < builder_fns@.len() ==> #[trigger] builder_fns@[k1] < #[trigger] builder_fns@[k2],
            forall|j: int| 0 <= j < i && is_builder_item(#[trigger] block.items@[j]) ==> builder_fns@.contains(j as usize),
        decreases block.items.len() - i,
    {
        let marked = match &block.items[i] {
            ImplItem::Fn(f) => f.has_builder_attr,
            ImplItem::Other => false,
        };
        if marked {
            let ghost prev = builder_fns@;
            builder_fns.push(i);
            assert(builder_fns@[builder_fns@.len() - 1] == i);
            assert forall|j: int| 0 <= j <= i && is_builder_item(#[trigger] block.items@[j]) implies builder_fns@.contains(j as usize) by {
                if j < i {
                    let k = choose|k: int| 0 <= k < prev.len() && prev[k] == j as usize;
                    assert(builder_fns@[k] == j as usize);
                }
            }
        } else {
            let ghost prev = other_items@;
            other_items.push(i);
            assert(other_items@[other_items@.len() - 1] == i);
            assert forall|j: int| 0 <= j <= i && !is_builder_item(#[trigger] block.items@[j]) implies other_items@.contains(j as usize) by {
                if j < i {
                    let k = choose|k: int| 0 <= k < prev.len() && prev[k] == j as usize;
                    assert(other_items@[k] == j as usize);
                }
            }
        }
        i = i + 1;
    }
    if builder_fns.len() == 0 {
        assert forall|j: int| 0 <= j < block.items@.len() implies !is_builder_item(#[trigger] block.items@[j]) by {
            if is_builder_item(block.items@[j]) {
                assert(builder_fns@.contains(j as usize));
            }
        }
        return Err(BuilderError::NoBuilderFunctions);
    }
    assert(is_builder_item(block.items@[builder_fns@[0] as int]));
    Ok(ImplPartition { other_items, builder_fns })
}

/// Refuses a `default` method; such methods get no builder.
pub fn impl_item_fn_into_fn_item(func: &ImplFn) -> (r: Result<(), BuilderError>)
    ensures
        func.is_default ==> (r matches Err(BuilderError::DefaultFn { fn_name }) && fn_name@ == func.name@),
        !func.is_default ==> r is Ok,
{
    if func.is_default {
        return Err(BuilderError::DefaultFn { fn_name: func.name.clone() });
    }
    Ok(())
}

/// Pairs each marked method of `block` with its normalized copy, in order,
/// and lays out the reassembled block. A trait impl and a block without a
/// marked method are refused first; then the two lists must line up one for
/// one, and a defaulted method is refused.
pub fn generate(block: &ImplBlock, parts: &ImplPartition, norm_fns: &Vec<ImplFn>) -> (r: Result<Vec<OutputItem>, BuilderError>)
    requires
        is_partition(*parts, block.items@),
    ensures
        block.trait_path matches Some(p) ==> (r matches Err(BuilderError::TraitImpl { trait_path }) && trait_path@ == p@),
        block.trait_path is None && !has_builder_item(block.items@) ==> r matches Err(BuilderError::NoBuilderFunctions),
        block.trait_path is None && has_builder_item(block.items@) ==> {
            &&& norm_fns@.len() != parts.builder_fns@.len() ==> (r matches Err(BuilderError::Misaligned))
            &&& norm_fns@.len() == parts.builder_fns@.len() ==> {
                &&& forall|k: int| 0 <= k < norm_fns@.len() && pair_is_default(*block, *parts, norm_fns@, k) ==> r is Err
                &&& r matches Err(e) ==> exists|k: int| {
                    &&& 0 <= k < norm_fns@.len()
                    &&& #[trigger] pair_is_default(*block, *parts, norm_fns@, k)
                    &&& forall|k1: int| 0 <= k1 < k ==> !pair_is_default(*block, *parts, norm_fns@, k1)
                    &&& e matches BuilderError::DefaultFn { fn_name } && fn_name@ == default_pair_name(*block, *parts, norm_fns@, k)
                }
                &&& r matches Ok(out) ==> out@ == reassembled(parts.other_items@, parts.builder_fns@.len())
            }
        },
{
    if let Some(trait_path) = &block.trait_path {
        return Err(BuilderError::TraitImpl { trait_path: trait_path.clone() });
    }
    if parts.builder_fns.len() == 0 {
        assert forall|j: int| 0 <= j < block.items@.len() implies !is_builder_item(#[trigger] block.items@[j]) by {
            if is_builder_item(block.items@[j]) {
                assert(parts.builder_fns@.contains(j as usize));
            }
        }
        return Err(BuilderError::NoBuilderFunctions);
    }
    assert(is_builder_item(block.items@[parts.builder_fns@[0] as int]));
    if norm_fns.len() != parts.builder_fns.len() {
        return Err(BuilderError::Misaligned);
    }
    let n = norm_fns.len();
    let mut k: usize = 0;
    while k < n
        invariant
            n == norm_fns@.len(),
            n == parts.builder_fns@.len(),
            is_partition(*parts, block.items@),
            block.trait_path is None,
            has_builder_item(block.items@),
            k <= n,
            forall|k1: int| 0 <= k1 < k ==> !pair_is_default(*block, *parts, norm_fns@, k1),
        decreases n - k,
    {
        let idx = parts.builder_fns[k];
        assert(is_builder_item(block.items@[idx as int]));
        let ImplItem::Fn(orig_fn) = &block.items[idx] else {
            return Err(BuilderError::Misaligned);
        };
        if let Err(e) = impl_item_fn_into_fn_item(&norm_fns[k]) {
            assert(pair_is_default(*block, *parts, norm_fns@, k as int));
            return Err(e);
        }
        if let Err(e) = impl_item_fn_into_fn_item(orig_fn) {
            assert(pair_is_default(*block, *parts, norm_fns@, k as int));
            return Err(e);
        }
        k = k + 1;
    }
    let mut out: Vec<OutputItem> = Vec::new();
    let mut i: usize = 0;
    while i < parts.other_items.len()
        invariant
            i <= parts.other_items@.len(),
            block.trait_path is None,
            has_builder_item(block.items@),
            out@ == parts.other_items@.subrange(0, i as int).map_values(|i: usize| OutputItem::Original(i)),
        decreases parts.other_items.len() - i,
    {
        out.push(OutputItem::Original(parts.other_items[i]));
        i = i + 1;
        assert(out@ =~= parts.other_items@.subrange(0, i as int).map_values(|i: usize| OutputItem::Original(i)));
    }
    let ghost head = out@;
    assert(parts.other_items@.subrange(0, i as int) == parts.other_items@);
    let mut k: usize = 0;
    while k < n
        invariant
            n == parts.builder_fns@.len(),
            block.trait_path is None,
            has_builder_item(block.items@),
            k <= n,
            head == parts.other_items@.map_values(|i: usize| OutputItem::Original(i)),
            out@ == head + Seq::new(
                2 * k as nat,
                |j: int| if j % 2 == 0 { OutputItem::StartFn((j / 2) as usize) } else { OutputItem::AdaptedFn((j / 2) as usize) },
            ),
        decreases n - k,
    {
        out.push(OutputItem::StartFn(k));
        out.push(OutputItem::AdaptedFn(k));
        k = k + 1;
        assert(out@ =~= head + Seq::new(
            2 * k as nat,
            |j: int| if j % 2 == 0 { OutputItem::StartFn((j / 2) as usize) } else { OutputItem::AdaptedFn((j / 2) as usize) },
        ));
    }
    Ok(out)
}

} // verus!
