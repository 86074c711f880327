use vstd::prelude::*;
use vstd::std_specs::convert::FromSpecImpl;

use crate::dashboard::{medium_breakdown, DashboardData, MediumBreakdown, UserSummaryData};
use crate::group_config::{GroupConfigData, TestSendInput, TestSendOutput};
use crate::import::{
    error_rows_view, refs_view, warnings_view, GroupRefData, ImportErrorRowData, ImportFilterRowInput,
    ImportFiltersResult, ImportGroupFilterRowInput, ImportWarningData, ResultView,
};
use crate::model::GroupId;
use crate::text::opt_string_view;

verus! {

/// The file formats of exports.
#[derive(Clone, Copy, Debug, PartialEq, Eq, Structural)]
pub enum ExportFormat {
    Xlsx,
}

/// The query of a filter export.
#[derive(Clone, Copy, Debug)]
pub struct ExportFiltersQuery {
    pub format: ExportFormat,
}

/// The answer of the health check.
#[derive(Clone, Copy, Debug)]
pub struct HealthData {
    pub status: &'static str,
}

/// The health check's answer: "ok".
pub fn health() -> (h: HealthData)
    ensures
        h.status@ == "ok"@,
{
    HealthData { status: "ok" }
}

/// A login request.
pub struct LoginRequest {
    pub username: String,
    pub password: String,
}

/// The answer to a login.
pub struct LoginResponse {
    pub username: String,
}

/// The answer to "who am I".
pub struct MeResponse {
    pub username: String,
}

/// The query of the user listing.
#[derive(Clone, Copy, Debug)]
pub struct ListUsersQuery {
    pub page: u32,
    pub per_page: u32,
}

/// The query of a group's filter listing.
#[derive(Clone, Copy, Debug)]
pub struct ListFiltersQuery {
    pub page: u32,
    pub per_page: u32,
}

/// A request to create a temporary user.
pub struct CreateUserRequest {
    pub username: String,
}

/// A request to create a filter.
pub struct CreateFilterRequest {
    pub ticker: String,
    pub company_name: String,
    pub notes: Option<String>,
}

/// A request to edit a filter.
pub struct UpdateFilterRequest {
    pub ticker: String,
    pub company_name: String,
    pub notes: Option<String>,
}

/// A request to edit a page.
pub struct UpdatePageRequest {
    pub title: String,
    pub content_markdown: String,
    pub is_published: bool,
}

/// A request to move a page.
#[derive(Clone, Copy, Debug)]
pub struct UpdatePageOrderRequest {
    pub display_order: i32,
}

/// The answer to a bulk filter request.
#[derive(Clone, Copy, Debug)]
pub struct BulkFilterActionResponse {
    pub updated_count: u32,
}

/// The answer to a bulk change of settings.
#[derive(Clone, Copy, Debug)]
pub struct BulkDestinationResponse {
    pub updated_count: u32,
}

/// A user's summary, as the API gives it.
#[derive(Clone, Copy, Debug)]
pub struct UserSummaryResponse {
    pub group_count: u32,
    pub filter_count: u32,
    pub discord_group_count: u32,
    pub slack_group_count: u32,
}

impl From<UserSummaryData> for UserSummaryResponse {
    fn from(d: UserSummaryData) -> (r: Self) {
        UserSummaryResponse {
            group_count: d.group_count,
            filter_count: d.filter_count,
            discord_group_count: d.discord_group_count,
            slack_group_count: d.slack_group_count,
        }
    }
}

impl FromSpecImpl<UserSummaryData> for UserSummaryResponse {
    open spec fn obeys_from_spec() -> bool {
        true
    }

    open spec fn from_spec(d: UserSummaryData) -> UserSummaryResponse {
        UserSummaryResponse {
            group_count: d.group_count,
            filter_count: d.filter_count,
            discord_group_count: d.discord_group_count,
            slack_group_count: d.slack_group_count,
        }
    }
}

/// A group's sending settings, as the API carries them.
#[derive(Debug)]
pub enum GroupConfigDto {
    Discord {
        webhook_url: Option<String>,
        embed_color: Option<String>,
        mention_enabled: bool,
        mention_targets: Vec<String>,
    },
    Slack { webhook_url: Option<String>, mention_enabled: bool, mention_targets: Vec<String> },
}

impl From<GroupConfigData> for GroupConfigDto {
    fn from(data: GroupConfigData) -> (r: Self) {
        match data {
            GroupConfigData::Discord { webhook_url, embed_color, mention_enabled, mention_targets } => {
                GroupConfigDto::Discord { webhook_url, embed_color, mention_enabled, mention_targets }
            },
            GroupConfigData::Slack { webhook_url, mention_enabled, mention_targets } => {
                GroupConfigDto::Slack { webhook_url, mention_enabled, mention_targets }
            },
        }
    }
}

impl FromSpecImpl<GroupConfigData> for GroupConfigDto {
    open spec fn obeys_from_spec() -> bool {
        true
    }

    open spec fn from_spec(data: GroupConfigData) -> GroupConfigDto {
        match data {
            GroupConfigData::Discord { webhook_url, embed_color, mention_enabled, mention_targets } => {
                GroupConfigDto::Discord { webhook_url, embed_color, mention_enabled, mention_targets }
            },
            GroupConfigData::Slack { webhook_url, mention_enabled, mention_targets } => {
                GroupConfigDto::Slack { webhook_url, mention_enabled, mention_targets }
            },
        }
    }
}

impl From<GroupConfigDto> for GroupConfigData {
    fn from(dto: GroupConfigDto) -> (r: Self) {
        match dto {
            GroupConfigDto::Discord { webhook_url, embed_color, mention_enabled, mention_targets } => {
                GroupConfigData::Discord { webhook_url, embed_color, mention_enabled, mention_targets }
            },
            GroupConfigDto::Slack { webhook_url, mention_enabled, mention_targets } => {
                GroupConfigData::Slack { webhook_url, mention_enabled, mention_targets }
            },
        }
    }
}

impl FromSpecImpl<GroupConfigDto> for GroupConfigData {
    open spec fn obeys_from_spec() -> bool {
        true
    }

    open spec fn from_spec(dto: GroupConfigDto) -> GroupConfigData {
        match dto {
            GroupConfigDto::Discord { webhook_url, embed_color, mention_enabled, mention_targets } => {
                GroupConfigData::Discord { webhook_url, embed_color, mention_enabled, mention_targets }
            },
            GroupConfigDto::Slack { webhook_url, mention_enabled, mention_targets } => {
                GroupConfigData::Slack { webhook_url, mention_enabled, mention_targets }
            },
        }
    }
}

/// A test send request.
pub struct TestSendRequest {
    pub ticker: Option<String>,
    pub company_name: Option<String>,
    pub title: Option<String>,
    pub evaluation: Option<String>,
    pub embed_color: Option<String>,
    pub webhook_url: Option<String>,
    pub mention_targets: Option<Vec<String>>,
}

impl From<TestSendRequest> for TestSendInput {
    fn from(r: TestSendRequest) -> (x: Self) {
        TestSendInput {
            ticker: r.ticker,
            company_name: r.company_name,
            title: r.title,
            evaluation: r.evaluation,
            embed_color: r.embed_color,
            webhook_url: r.webhook_url,
            mention_targets: r.mention_targets,
        }
    }
}

impl FromSpecImpl<TestSendRequest> for TestSendInput {
    open spec fn obeys_from_spec() -> bool {
        true
    }

    open spec fn from_spec(r: TestSendRequest) -> TestSendInput {
        TestSendInput {
            ticker: r.ticker,
            company_name: r.company_name,
            title: r.title,
            evaluation: r.evaluation,
            embed_color: r.embed_color,
            webhook_url: r.webhook_url,
            mention_targets: r.mention_targets,
        }
    }
}

/// The answer to a test send.
#[derive(Debug)]
pub struct TestSendResponse {
    pub success: bool,
    pub failure_reason: Option<String>,
}

impl From<TestSendOutput> for TestSendResponse {
    fn from(o: TestSendOutput) -> (r: Self) {
        TestSendResponse { success: o.success, failure_reason: o.failure_reason }
    }
}

impl FromSpecImpl<TestSendOutput> for TestSendResponse {
    open spec fn obeys_from_spec() -> bool {
        true
    }

    open spec fn from_spec(o: TestSendOutput) -> TestSendResponse {
        TestSendResponse { success: o.success, failure_reason: o.failure_reason }
    }
}

} // verus!

verus! {

/// One row of a whole-account import request.
pub struct ImportFilterRow {
    pub ticker: String,
    pub company_name: String,
    pub group_name: String,
    pub notes: Option<String>,
    pub enabled: Option<bool>,
}

impl From<ImportFilterRow> for ImportFilterRowInput {
    fn from(r: ImportFilterRow) -> (x: Self) {
        ImportFilterRowInput {
            ticker: r.ticker,
            company_name: r.company_name,
            group_name: r.group_name,
            notes: r.notes,
            enabled: r.enabled,
        }
    }
}

impl FromSpecImpl<ImportFilterRow> for ImportFilterRowInput {
    open spec fn obeys_from_spec() -> bool {
        true
    }

    open spec fn from_spec(r: ImportFilterRow) -> ImportFilterRowInput {
        ImportFilterRowInput {
            ticker: r.ticker,
            company_name: r.company_name,
            group_name: r.group_name,
            notes: r.notes,
            enabled: r.enabled,
        }
    }
}

/// A whole-account import request.
pub struct ImportFiltersRequest {
    pub rows: Vec<ImportFilterRow>,
    pub dry_run: bool,
}

/// One row of an import into one group.
pub struct ImportGroupFilterRow {
    pub ticker: String,
    pub company_name: String,
    pub notes: Option<String>,
    pub enabled: Option<bool>,
}

impl From<ImportGroupFilterRow> for ImportGroupFilterRowInput {
    fn from(r: ImportGroupFilterRow) -> (x: Self) {
        ImportGroupFilterRowInput { ticker: r.ticker, company_name: r.company_name, notes: r.notes, enabled: r.enabled }
    }
}

impl FromSpecImpl<ImportGroupFilterRow> for ImportGroupFilterRowInput {
    open spec fn obeys_from_spec() -> bool {
        true
    }

    open spec fn from_spec(r: ImportGroupFilterRow) -> ImportGroupFilterRowInput {
        ImportGroupFilterRowInput { ticker: r.ticker, company_name: r.company_name, notes: r.notes, enabled: r.enabled }
    }
}

/// An import request for one group.
pub struct ImportGroupFiltersRequest {
    pub rows: Vec<ImportGroupFilterRow>,
    pub dry_run: bool,
}

/// A rejected row, as the API reports it.
#[derive(Debug)]
pub struct ImportErrorRow {
    pub row_number: u32,
    pub reason: String,
}

/// A warning, as the API reports it.
#[derive(Debug)]
pub struct ImportWarning {
    pub row_number: u32,
    pub message: String,
}

/// A group, as the API names it.
#[derive(Debug)]
pub struct GroupRef {
    pub id: GroupId,
    pub name: String,
}

/// The report of an import, as the API gives it.
#[derive(Debug)]
pub struct ImportFiltersResponse {
    pub imported_count: u32,
    pub skipped_empty_rows: u32,
    pub duplicate_count: u32,
    pub error_rows: Vec<ImportErrorRow>,
    pub created_groups: Vec<GroupRef>,
    pub paused_groups: Vec<GroupRef>,
    pub warnings: Vec<ImportWarning>,
}

impl View for ImportFiltersResponse {
    type V = ResultView;

    open spec fn view(&self) -> ResultView {
        ResultView {
            imported: self.imported_count as nat,
            skipped: self.skipped_empty_rows as nat,
            duplicates: self.duplicate_count as nat,
            errors: self.error_rows@.map_values(|e: ImportErrorRow| (e.row_number as nat, e.reason@)),
            created: self.created_groups@.map_values(|g: GroupRef| (g.id, g.name@)),
            paused: self.paused_groups@.map_values(|g: GroupRef| (g.id, g.name@)),
            warnings: self.warnings@.map_values(|w: ImportWarning| (w.row_number as nat, w.message@)),
        }
    }
}

fn group_refs(v: &Vec<GroupRefData>) -> (r: Vec<GroupRef>)
    ensures
        r@.map_values(|g: GroupRef| (g.id, g.name@)) == refs_view(v@),
{
    let mut r: Vec<GroupRef> = Vec::new();
    let mut i: usize = 0;
    while i < v.len()
        invariant
            i <= v@.len(),
            r@.map_values(|g: GroupRef| (g.id, g.name@)) == refs_view(v@).take(i as int),
        decreases v@.len() - i,
    {
        let ghost before = r@;
        r.push(GroupRef { id: v[i].id, name: v[i].name.clone() });
        assert(r@.map_values(|g: GroupRef| (g.id, g.name@)) =~= before.map_values(|g: GroupRef| (g.id, g.name@)).push(
            (v@[i as int].id, v@[i as int].name@),
        ));
        assert(r@.map_values(|g: GroupRef| (g.id, g.name@)) =~= refs_view(v@).take(i + 1));
        i = i + 1;
    }
    assert(refs_view(v@).take(v@.len() as int) =~= refs_view(v@));
    r
}

impl ImportFiltersResponse {
    /// The API's form of an import report, entry for entry.
    pub fn from_result(res: &ImportFiltersResult) -> (r: ImportFiltersResponse)
        ensures
            r@ == res@,
    {
        let mut error_rows: Vec<ImportErrorRow> = Vec::new();
        let mut i: usize = 0;
        while i < res.error_rows.len()
            invariant
                i <= res.error_rows@.len(),
                error_rows@.map_values(|e: ImportErrorRow| (e.row_number as nat, e.reason@))
                    == error_rows_view(res.error_rows@).take(i as int),
            decreases res.error_rows@.len() - i,
        {
            let e = &res.error_rows[i];
            let ghost before = error_rows@;
            error_rows.push(ImportErrorRow { row_number: e.row_number, reason: e.reason.clone() });
            assert(error_rows@.map_values(|e: ImportErrorRow| (e.row_number as nat, e.reason@)) =~= before.map_values(
                |e: ImportErrorRow| (e.row_number as nat, e.reason@),
            ).push((e.row_number as nat, e.reason@)));
            assert(error_rows@.map_values(|e: ImportErrorRow| (e.row_number as nat, e.reason@))
                =~= error_rows_view(res.error_rows@).take(i + 1));
            i = i + 1;
        }
        assert(error_rows_view(res.error_rows@).take(res.error_rows@.len() as int) =~= error_rows_view(res.error_rows@));
        let mut warnings: Vec<ImportWarning> = Vec::new();
        let mut j: usize = 0;
        while j < res.warnings.len()
            invariant
                j <= res.warnings@.len(),
                warnings@.map_values(|w: ImportWarning| (w.row_number as nat, w.message@))
                    == warnings_view(res.warnings@).take(j as int),
            decreases res.warnings@.len() - j,
        {
            let w = &res.warnings[j];
            let ghost before = warnings@;
            warnings.push(ImportWarning { row_number: w.row_number, message: w.message.clone() });
            assert(warnings@.map_values(|w: ImportWarning| (w.row_number as nat, w.message@)) =~= before.map_values(
                |w: ImportWarning| (w.row_number as nat, w.message@),
            ).push((w.row_number as nat, w.message@)));
            assert(warnings@.map_values(|w: ImportWarning| (w.row_number as nat, w.message@))
                =~= warnings_view(res.warnings@).take(j + 1));
            j = j + 1;
        }
        assert(warnings_view(res.warnings@).take(res.warnings@.len() as int) =~= warnings_view(res.warnings@));
        ImportFiltersResponse {
            imported_count: res.imported_count,
            skipped_empty_rows: res.skipped_empty_rows,
            duplicate_count: res.duplicate_count,
            error_rows,
            created_groups: group_refs(&res.created_groups),
            paused_groups: group_refs(&res.paused_groups),
            warnings,
        }
    }
}

/// The page of a group's filters that a listing shows: the filters are all
/// fetched, then paged here, and the total is their number.
pub fn list_filters_page<T>(filters: Vec<T>, query: ListFiltersQuery) -> (p: crate::paging::Page<T>)
    requires
        crate::paging::page_start(query.page, query.per_page) <= u32::MAX,
        filters@.len() <= i64::MAX,
    ensures
        p.total_count == filters@.len(),
        p.page == query.page,
        p.per_page == query.per_page,
        p.total_pages == crate::paging::pages_for(filters@.len() as i64, query.per_page),
        crate::paging::page_start(query.page, query.per_page) >= filters@.len() ==> p.items@.len() == 0,
        crate::paging::page_start(query.page, query.per_page) < filters@.len() ==> p.items@ == filters@.subrange(
            crate::paging::page_start(query.page, query.per_page),
            if crate::paging::page_start(query.page, query.per_page) + query.per_page <= filters@.len() {
                crate::paging::page_start(query.page, query.per_page) + query.per_page
            } else {
                filters@.len() as int
            },
        ),
{
    let total = filters.len() as i64;
    let items = crate::paging::page_slice(filters, query.page, query.per_page);
    crate::paging::build_page(items, query.page, query.per_page, total)
}

} // verus!

verus! {

/// The dashboard as it is answered: the Discord and Slack counts are grouped
/// into a breakdown; `H` is the form of a recent history entry.
pub struct DashboardResponse<H> {
    pub group_count: u32,
    pub filter_count: u32,
    pub unique_ticker_count: u32,
    pub unique_company_name_count: u32,
    pub medium_breakdown: MediumBreakdown,
    pub paused_group_count: u32,
    pub webhook_missing_count: u32,
    pub recent_sent: Vec<H>,
    pub recent_failed: Vec<H>,
}

impl<H> DashboardResponse<H> {
    /// The answer for the dashboard's figures.
    pub fn from_data(d: DashboardData<H>) -> (r: DashboardResponse<H>)
        ensures
            r.group_count == d.group_count,
            r.filter_count == d.filter_count,
            r.unique_ticker_count == d.unique_ticker_count,
            r.unique_company_name_count == d.unique_company_name_count,
            r.medium_breakdown.discord == d.discord_group_count,
            r.medium_breakdown.slack == d.slack_group_count,
            r.paused_group_count == d.paused_group_count,
            r.webhook_missing_count == d.webhook_missing_count,
            r.recent_sent == d.recent_sent,
            r.recent_failed == d.recent_failed,
    {
        let m = medium_breakdown(&d);
        DashboardResponse {
            group_count: d.group_count,
            filter_count: d.filter_count,
            unique_ticker_count: d.unique_ticker_count,
            unique_company_name_count: d.unique_company_name_count,
            medium_breakdown: m,
            paused_group_count: d.paused_group_count,
            webhook_missing_count: d.webhook_missing_count,
            recent_sent: d.recent_sent,
            recent_failed: d.recent_failed,
        }
    }
}

/// A newly issued user (`U`: the stored user) with the temporary password
/// that was generated for it, which is shown once.
pub struct CreateTempUserOutput<U> {
    pub user: U,
    pub temporary_password: String,
}

} // verus!
