use vstd::prelude::*;

use crate::access::validate_filter_fields;
use crate::error::AppError;
use crate::export::FilterEntry;
use crate::model::{FilterId, UserId};
use crate::text::{opt_string_view, trim};

verus! {

/// The fields of a new filter: the canonical ticker (which must not be
/// blank), the trimmed company name (which must not be blank), the notes as
/// given; a new filter is enabled.
pub fn create_filter(normalized_ticker: &str, company_name: &str, notes: Option<String>) -> (r: Result<FilterEntry, AppError>)
    ensures
        normalized_ticker@.len() == 0 ==> (r matches Err(AppError::InvalidInput(m)) && m@ == crate::access::ticker_missing_message()),
        normalized_ticker@.len() > 0 && trim(company_name@).len() == 0 ==> (r matches Err(AppError::InvalidInput(m))
            && m@ == crate::access::company_missing_message()),
        normalized_ticker@.len() > 0 && trim(company_name@).len() > 0 ==> (r matches Ok(f) && f.ticker@ == normalized_ticker@
            && f.company_name@ == trim(company_name@) && opt_string_view(f.notes) == opt_string_view(notes) && f.enabled),
{
    let company = validate_filter_fields(normalized_ticker, company_name)?;
    Ok(FilterEntry { ticker: normalized_ticker.to_owned(), company_name: company, notes, enabled: true })
}

/// A filter after an edit: ticker, company name and notes as for a new
/// filter; whether it is enabled does not change.
pub fn update_filter(current: FilterEntry, normalized_ticker: &str, company_name: &str, notes: Option<String>) -> (r: Result<FilterEntry, AppError>)
    ensures
        normalized_ticker@.len() == 0 ==> (r matches Err(AppError::InvalidInput(m)) && m@ == crate::access::ticker_missing_message()),
        normalized_ticker@.len() > 0 && trim(company_name@).len() == 0 ==> (r matches Err(AppError::InvalidInput(m))
            && m@ == crate::access::company_missing_message()),
        normalized_ticker@.len() > 0 && trim(company_name@).len() > 0 ==> (r matches Ok(f) && f.ticker@ == normalized_ticker@
            && f.company_name@ == trim(company_name@) && opt_string_view(f.notes) == opt_string_view(notes)
            && f.enabled == current.enabled),
{
    let company = validate_filter_fields(normalized_ticker, company_name)?;
    Ok(FilterEntry { ticker: normalized_ticker.to_owned(), company_name: company, notes, enabled: current.enabled })
}

/// The filters of a bulk request that the caller owns: `owners[i]` is the
/// owner of the group of filter `ids[i]` (`None`: the filter or its group is gone).
pub open spec fn owned_ids(ids: Seq<FilterId>, owners: Seq<Option<UserId>>, user: UserId) -> Seq<FilterId>
    decreases ids.len(),
{
    if ids.len() == 0 {
        Seq::empty()
    } else {
        let n = ids.len() - 1;
        let prev = owned_ids(ids.take(n), owners, user);
        if owners[n] == Some(user) {
            prev.push(ids[n])
        } else {
            prev
        }
    }
}

/// Narrows a bulk request to the filters that the caller owns, in order.
pub fn filter_ids_owned_by_user(ids: &Vec<FilterId>, owners: &Vec<Option<UserId>>, user: UserId) -> (r: Vec<FilterId>)
    requires
        owners@.len() == ids@.len(),
    ensures
        r@ == owned_ids(ids@, owners@, user),
{
    let mut r: Vec<FilterId> = Vec::new();
    let mut i: usize = 0;
    while i < ids.len()
        invariant
            i <= ids@.len(),
            owners@.len() == ids@.len(),
            r@ == owned_ids(ids@.take(i as int), owners@, user),
        decreases ids@.len() - i,
    {
        assert(ids@.take(i + 1).take(i as int) =~= ids@.take(i as int));
        assert(ids@.take(i + 1)[i as int] == ids@[i as int]);
        if owners[i] == Some(user) {
            r.push(ids[i]);
        }
        i = i + 1;
    }
    assert(ids@.take(ids@.len() as int) =~= ids@);
    r
}

/// What a bulk request does to each filter.
#[derive(Clone, Copy, Debug, PartialEq, Eq, Structural)]
pub enum BulkAction {
    Enable,
    Disable,
    Delete,
}

/// One change of a bulk request.
#[derive(Clone, Copy, Debug, PartialEq, Eq, Structural)]
pub enum BulkStep {
    SetEnabled(FilterId, bool),
    Delete(FilterId),
}

/// The step of a bulk request for one filter, given whether it was found
/// just now, and the count of changed filters after it: a filter that is not
/// found is skipped without error.
pub fn bulk_filter_action(id: FilterId, found: bool, action: BulkAction, count: u32) -> (r: (Option<BulkStep>, u32))
    requires
        count < u32::MAX,
    ensures
        !found ==> r.0 is None && r.1 == count,
        found ==> r.1 == count + 1 && r.0 == Some(
            match action {
                BulkAction::Enable => BulkStep::SetEnabled(id, true),
                BulkAction::Disable => BulkStep::SetEnabled(id, false),
                BulkAction::Delete => BulkStep::Delete(id),
            },
        ),
{
    if !found {
        return (None, count);
    }
    let step = match action {
        BulkAction::Enable => BulkStep::SetEnabled(id, true),
        BulkAction::Disable => BulkStep::SetEnabled(id, false),
        BulkAction::Delete => BulkStep::Delete(id),
    };
    (Some(step), count + 1)
}

} // verus!
