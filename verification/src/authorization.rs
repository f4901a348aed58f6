//! Authorization decisions of guests and their reduction to one verdict per
//! item.

use vstd::prelude::*;
use crate::graphql_error::GraphqlError;
use crate::host::error::InternalError;

verus! {

/// What a guest decided about the items it was asked about.
#[derive(Debug)]
pub enum AuthorizationDecision {
    /// Every item is granted.
    GrantAll,
    /// Every item is denied with this error.
    DenyAll(GraphqlError),
    /// One verdict for each item, or a single verdict that holds for every
    /// item.
    PerItem(Vec<Result<(), GraphqlError>>),
}

/// The verdicts for a list of items. A denied item points at its error, so
/// that one error can deny many items.
#[derive(Debug)]
pub struct ItemVerdicts {
    verdicts: Vec<Option<usize>>,
    errors: Vec<GraphqlError>,
}

impl AuthorizationDecision {
    /// The cardinality rule: a per-item list holds one verdict or as many as
    /// there are items.
    pub open spec fn fits(self, items: nat) -> bool {
        match self {
            AuthorizationDecision::PerItem(list) => list@.len() == 1 || list@.len() == items,
            _ => true,
        }
    }

    /// The error that denies item `item` of `items`, if the item is denied.
    pub open spec fn verdict(self, items: nat, item: int) -> Option<GraphqlError> {
        match self {
            AuthorizationDecision::GrantAll => None,
            AuthorizationDecision::DenyAll(error) => Some(error),
            AuthorizationDecision::PerItem(list) => {
                let entry = if list@.len() == items {
                    list@[item]
                } else {
                    list@[0]
                };
                match entry {
                    Ok(()) => None,
                    Err(error) => Some(error),
                }
            },
        }
    }

    /// Reduces the decision to one verdict for each of `items` items.
    ///
    /// A per-item list of any length but one or `items` breaks the guest
    /// protocol: it is reported as an internal error and never truncated or
    /// padded.
    pub fn resolve(self, items: usize) -> (resolved: Result<ItemVerdicts, InternalError>)
        ensures
            resolved is Ok == self.fits(items as nat),
            resolved matches Ok(verdicts) ==> {
                &&& verdicts.wf()
                &&& verdicts@.len() == items
                &&& forall|item: int| 0 <= item < items ==> #[trigger] verdicts@[item] == self.verdict(items as nat, item)
            },
            resolved matches Err(error) ==> self matches AuthorizationDecision::PerItem(list) && error
                == (InternalError::DecisionCardinality { decisions: list@.len() as usize, items }),
    {
        match self {
            AuthorizationDecision::GrantAll => {
                let verdicts = uniform(items, None);
                let resolved = ItemVerdicts { verdicts, errors: Vec::new() };
                assert(resolved@.len() == items);
                Ok(resolved)
            },
            AuthorizationDecision::DenyAll(error) => {
                let verdicts = uniform(items, Some(0));
                let mut errors = Vec::new();
                errors.push(error);
                Ok(ItemVerdicts { verdicts, errors })
            },
            AuthorizationDecision::PerItem(list) => {
                let decisions = list.len();
                if decisions != 1 && decisions != items {
                    return Err(InternalError::DecisionCardinality { decisions, items });
                }
                let ghost source = list@;
                let mut errors: Vec<GraphqlError> = Vec::new();
                let mut each: Vec<Option<usize>> = Vec::new();
                for entry in it: list
                    invariant
                        it.seq() == source,
                        each@.len() == it.index(),
                        forall|k: int| 0 <= k < each@.len() ==> match #[trigger] each@[k] {
                            Some(e) => e < errors@.len() && source[k] == Err::<(), GraphqlError>(errors@[e as int]),
                            None => source[k] is Ok,
                        },
                {
                    match entry {
                        Ok(()) => {
                            each.push(None);
                        },
                        Err(error) => {
                            each.push(Some(errors.len()));
                            errors.push(error);
                        },
                    }
                }
                if decisions == items {
                    Ok(ItemVerdicts { verdicts: each, errors })
                } else {
                    let verdicts = uniform(items, each[0]);
                    Ok(ItemVerdicts { verdicts, errors })
                }
            },
        }
    }
}

impl ItemVerdicts {
    /// Every denied item points at an error.
    pub closed spec fn wf(&self) -> bool {
        forall|item: int|
            0 <= item < self.verdicts@.len() ==> (#[trigger] self.verdicts@[item] matches Some(e) ==> e
                < self.errors@.len())
    }

    /// For each item the error that denies it, if it is denied.
    pub closed spec fn view(&self) -> Seq<Option<GraphqlError>> {
        Seq::new(
            self.verdicts@.len(),
            |item: int|
                match self.verdicts@[item] {
                    Some(e) => Some(self.errors@[e as int]),
                    None => None,
                },
        )
    }

    /// The number of items.
    pub fn len(&self) -> (items: usize)
        ensures
            items == self@.len(),
    {
        self.verdicts.len()
    }

    /// Whether item `item` is granted.
    pub fn is_granted(&self, item: usize) -> (granted: bool)
        requires
            item < self@.len(),
        ensures
            granted == (self@[item as int] is None),
    {
        self.verdicts[item].is_none()
    }

    /// The error that denies item `item`, if it is denied.
    pub fn denial(&self, item: usize) -> (error: Option<&GraphqlError>)
        requires
            self.wf(),
            item < self@.len(),
        ensures
            match error {
                Some(e) => self@[item as int] == Some(*e),
                None => self@[item as int] is None,
            },
    {
        match self.verdicts[item] {
            Some(e) => Some(&self.errors[e]),
            None => None,
        }
    }
}

/// `items` copies of `verdict`.
fn uniform(items: usize, verdict: Option<usize>) -> (verdicts: Vec<Option<usize>>)
    ensures
        verdicts@.len() == items,
        forall|item: int| 0 <= item < items ==> #[trigger] verdicts@[item] == verdict,
{
    let mut verdicts: Vec<Option<usize>> = Vec::new();
    let mut item: usize = 0;
    while item < items
        invariant
            item <= items,
            verdicts@.len() == item,
            forall|k: int| 0 <= k < item ==> #[trigger] verdicts@[k] == verdict,
        decreases items - item,
    {
        verdicts.push(verdict);
        item += 1;
    }
    verdicts
}

} // verus!
