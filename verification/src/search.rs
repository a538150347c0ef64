//! Search requests: which page is asked for, and what the stored rows are matched
//! against.

use vstd::prelude::*;
use vstd::string::StringExecFns;
use crate::error::{Rejection, StoreAnswer};
use crate::guards::search_users_guard;
use crate::permission_check::{permission_outcome, RoleLookup};
use crate::permissions::Permission;
use crate::text::{chars_of, first_sep, lemma_first_sep_at, lowercase, split, str_eq};
use crate::text::{to_lowercase, trim, trim_range, trim_str};
use crate::timestamps::{instant_of, parse_datetime, Instant};

verus! {

/// The page that is shown when none is asked for.
pub const DEFAULT_PAGE: usize = 1;

/// The number of rows on a page when none is asked for.
pub const DEFAULT_PER_PAGE: usize = 10;

/// The index, from 0, of page `page`, counted from 1. Page 0 is read as page 1.
pub fn page_index(page: usize) -> (index: usize)
    ensures
        index == if page == 0 {
            0
        } else {
            page - 1
        },
{
    if page == 0 {
        0
    } else {
        page - 1
    }
}

/// The number of pages that `total` rows fill: `total / per_page`, rounded up.
pub open spec fn pages_for(total: nat, per_page: nat) -> nat
    recommends
        per_page > 0,
{
    ((total + per_page - 1) / per_page as int) as nat
}

/// The number of pages that `total` rows fill at `per_page` rows a page.
pub fn total_pages(total: u64, per_page: u64) -> (pages: u64)
    requires
        per_page > 0,
    ensures
        pages == pages_for(total as nat, per_page as nat),
{
    let full: u64 = total / per_page;
    let rest: u64 = total % per_page;
    proof {
        let t = total as int;
        let p = per_page as int;
        assert(t == p * (t / p) + t % p) by (nonlinear_arith)
            requires
                p > 0,
        ;
        if rest == 0 {
            assert((t + p - 1) / p == t / p) by (nonlinear_arith)
                requires
                    p > 0,
                    t >= 0,
                    t % p == 0,
            ;
        } else {
            assert((t + p - 1) / p == t / p + 1) by (nonlinear_arith)
                requires
                    p > 0,
                    t >= 0,
                    0 < t % p < p,
            ;
            assert(t / p < 0xFFFF_FFFF_FFFF_FFFF) by (nonlinear_arith)
                requires
                    p >= 2,
                    0 <= t <= 0xFFFF_FFFF_FFFF_FFFF,
            ;
        }
    }
    if rest == 0 {
        full
    } else {
        full + 1
    }
}

/// The pattern that matches every text that holds `keyword`.
pub open spec fn like_pattern(keyword: Seq<char>) -> Seq<char> {
    seq!['%'] + keyword + seq!['%']
}

/// The pattern for the free-text query `q`: none where there is no query or only
/// white space, else the pattern that holds the query without the white space
/// around it.
pub open spec fn keyword_pattern_of(q: Option<Seq<char>>) -> Option<Seq<char>> {
    match q {
        None => None,
        Some(text) => if trim(text).len() == 0 {
            None
        } else {
            Some(like_pattern(trim(text)))
        },
    }
}

/// The pattern for the free-text query `q`.
pub fn keyword_pattern(q: Option<&str>) -> (pattern: Option<String>)
    ensures
        match pattern {
            Some(p) => keyword_pattern_of(option_view(q)) == Some(p@),
            None => keyword_pattern_of(option_view(q)) is None,
        },
{
    match q {
        None => None,
        Some(text) => {
            let keyword = trim_str(text);
            if keyword.unicode_len() == 0 {
                return None;
            }
            proof {
                reveal_strlit("%");
            }
            let mut pattern = "%".to_owned();
            pattern.append(keyword);
            pattern.append("%");
            assert(pattern@ =~= like_pattern(trim(text@)));
            Some(pattern)
        },
    }
}

/// What an optional string holds.
pub open spec fn option_view(s: Option<&str>) -> Option<Seq<char>> {
    match s {
        Some(text) => Some(text@),
        None => None,
    }
}

/// One condition of the role search, taken from the `filter` parameter.
#[derive(Clone, Debug, PartialEq, Eq)]
pub enum RoleFilter {
    /// The role's name holds this text.
    Name(String),
    /// The role's custom id holds this text.
    CustomId(String),
}

/// What a `RoleFilter` holds.
pub enum RoleFilterView {
    Name(Seq<char>),
    CustomId(Seq<char>),
}

impl DeepView for RoleFilter {
    type V = RoleFilterView;

    open spec fn deep_view(&self) -> RoleFilterView {
        match self {
            RoleFilter::Name(text) => RoleFilterView::Name(text@),
            RoleFilter::CustomId(text) => RoleFilterView::CustomId(text@),
        }
    }
}

/// The condition that a key, already in lower case, and a value stand for. Keys
/// other than `name` and `custom_id` stand for none.
pub open spec fn role_filter_for(key: Seq<char>, value: Seq<char>) -> Option<RoleFilterView> {
    if key == "name"@ {
        Some(RoleFilterView::Name(value))
    } else if key == "custom_id"@ {
        Some(RoleFilterView::CustomId(value))
    } else {
        None
    }
}

/// The condition that one `key:value` pair stands for. The key is read without the
/// white space around it and in any case of letters, the value without the white
/// space around it. A pair without `:` stands for none; of several `:` the first
/// one parts key and value.
pub open spec fn pair_filter(pair: Seq<char>) -> Option<RoleFilterView> {
    let k = first_sep(pair, ':');
    if 0 <= k < pair.len() {
        role_filter_for(lowercase(trim(pair.take(k))), trim(pair.skip(k + 1)))
    } else {
        None
    }
}

/// The conditions that `pairs` stand for, in their order.
pub open spec fn filters_of_pairs(pairs: Seq<Seq<char>>) -> Seq<RoleFilterView>
    decreases pairs.len(),
{
    if pairs.len() == 0 {
        Seq::empty()
    } else {
        match pair_filter(pairs[0]) {
            Some(f) => seq![f] + filters_of_pairs(pairs.drop_first()),
            None => filters_of_pairs(pairs.drop_first()),
        }
    }
}

/// The conditions that a `filter` parameter stands for: it holds `key:value` pairs,
/// separated by `,`.
pub open spec fn role_filters_of(filter: Seq<char>) -> Seq<RoleFilterView> {
    if trim(filter).len() == 0 {
        Seq::empty()
    } else {
        filters_of_pairs(split(trim(filter), ','))
    }
}

/// The condition that `key`, already in lower case, and `value` stand for.
pub fn role_filter(key: &str, value: &str) -> (filter: Option<RoleFilter>)
    ensures
        match filter {
            Some(f) => role_filter_for(key@, value@) == Some(f.deep_view()),
            None => role_filter_for(key@, value@) is None,
        },
{
    if str_eq(key, "name") {
        Some(RoleFilter::Name(value.to_owned()))
    } else if str_eq(key, "custom_id") {
        Some(RoleFilter::CustomId(value.to_owned()))
    } else {
        None
    }
}

/// The conditions that the `filter` parameter `filter` stands for.
pub fn parse_role_filter(filter: &str) -> (filters: Vec<RoleFilter>)
    ensures
        filters.deep_view() == role_filters_of(filter@),
{
    let trimmed = trim_str(filter);
    let v = chars_of(trimmed);
    let n: usize = v.len();
    let mut filters: Vec<RoleFilter> = Vec::new();
    if n == 0 {
        assert(filters.deep_view() =~= Seq::<RoleFilterView>::empty());
        return filters;
    }
    let mut start: usize = 0;
    assert(v@.skip(0) =~= v@);
    assert(filters.deep_view() =~= Seq::<RoleFilterView>::empty());
    loop
        invariant
            start <= n,
            n == v.len(),
            n > 0,
            v@ == trimmed@,
            trimmed@ == trim(filter@),
            role_filters_of(filter@) == filters.deep_view() + filters_of_pairs(
                split(v@.skip(start as int), ','),
            ),
        decreases n - start,
    {
        let mut end: usize = start;
        while end < n && v[end] != ','
            invariant
                start <= end <= n,
                n == v.len(),
                forall|k: int| start <= k < end ==> v@[k] != ',',
            decreases n - end,
        {
            end += 1;
        }
        let ghost rest = v@.skip(start as int);
        let ghost pieces = split(rest, ',');
        proof {
            lemma_first_sep_at(rest, ',', end - start);
            assert(rest.take(end - start) =~= v@.subrange(start as int, end as int));
            assert(end < n ==> rest.skip(end - start + 1) =~= v@.skip(end + 1));
            if end == n {
                assert(rest =~= v@.subrange(start as int, end as int));
            }
            assert(pieces[0] == v@.subrange(start as int, end as int));
            assert(end < n ==> pieces.drop_first() =~= split(v@.skip(end + 1), ','));
            assert(end == n ==> pieces.drop_first() =~= Seq::<Seq<char>>::empty());
            assert(filters_of_pairs(Seq::<Seq<char>>::empty()) =~= Seq::<RoleFilterView>::empty());
        }
        let ghost pair = v@.subrange(start as int, end as int);
        let mut colon: usize = start;
        while colon < end && v[colon] != ':'
            invariant
                start <= colon <= end <= n,
                n == v.len(),
                forall|k: int| start <= k < colon ==> v@[k] != ':',
            decreases end - colon,
        {
            colon += 1;
        }
        proof {
            lemma_first_sep_at(pair, ':', colon - start);
        }
        let ghost before = filters.deep_view();
        if colon < end {
            let (ka, kb) = trim_range(&v, start, colon);
            let (va, vb) = trim_range(&v, colon + 1, end);
            proof {
                assert(pair.take(colon - start) =~= v@.subrange(start as int, colon as int));
                assert(pair.skip(colon - start + 1) =~= v@.subrange(colon + 1, end as int));
            }
            let key = to_lowercase(trimmed.substring_char(ka, kb));
            let value = trimmed.substring_char(va, vb);
            match role_filter(key.as_str(), value) {
                Some(f) => {
                    filters.push(f);
                    assert(filters.deep_view() =~= before + seq![f.deep_view()]);
                },
                None => {},
            }
        }
        proof {
            let next = filters_of_pairs(pieces.drop_first());
            match pair_filter(pair) {
                Some(f) => {
                    assert(filters.deep_view() + next =~= before + (seq![f] + next));
                },
                None => {},
            }
        }
        if end >= n {
            assert(filters.deep_view() + Seq::<RoleFilterView>::empty() =~= filters.deep_view());
            return filters;
        }
        start = end + 1;
    }
}

/// What an optional owned string holds.
pub open spec fn text_of(s: Option<String>) -> Option<Seq<char>> {
    match s {
        Some(text) => Some(text@),
        None => None,
    }
}

/// The parameters of the role search, as the request gives them.
#[derive(Clone, Debug)]
pub struct Pagination {
    pub page: Option<usize>,
    pub per_page: Option<usize>,
    pub q: Option<String>,
    pub filter: Option<String>,
}

impl Pagination {
    /// The page and the page size, each with its default where the request gives
    /// none, and the query and the filter as they are.
    pub fn params(&self) -> (r: (usize, usize, Option<String>, Option<String>))
        ensures
            r.0 == match self.page {
                Some(page) => page,
                None => DEFAULT_PAGE,
            },
            r.1 == match self.per_page {
                Some(per_page) => per_page,
                None => DEFAULT_PER_PAGE,
            },
            r.2 == self.q,
            r.3 == self.filter,
    {
        let page = match self.page {
            Some(page) => page,
            None => DEFAULT_PAGE,
        };
        let per_page = match self.per_page {
            Some(per_page) => per_page,
            None => DEFAULT_PER_PAGE,
        };
        (page, per_page, self.q.clone(), self.filter.clone())
    }
}

impl Default for Pagination {
    /// The first page at the default page size, with no query and no filter.
    fn default() -> (p: Pagination)
        ensures
            p.page == Some(DEFAULT_PAGE),
            p.per_page == Some(DEFAULT_PER_PAGE),
            p.q is None,
            p.filter is None,
    {
        Pagination {
            page: Some(DEFAULT_PAGE),
            per_page: Some(DEFAULT_PER_PAGE),
            q: None,
            filter: None,
        }
    }
}

/// What the role search asks of the store.
#[derive(Clone, Debug)]
pub struct RoleQuery {
    /// The page, counted from 1, as the response reports it.
    pub page: usize,
    /// The number of rows on a page.
    pub per_page: usize,
    /// The page, counted from 0, that the store is asked for.
    pub page_index: usize,
    /// The pattern that the name or the custom id has to match, if there is one.
    pub keyword: Option<String>,
    /// The conditions that all have to hold.
    pub filters: Vec<RoleFilter>,
}

/// What the role search with these parameters asks of the store. Rows are matched
/// against the query, if it holds more than white space, and against every
/// condition of the filter, and come ordered by name.
pub fn search_roles(params: &Pagination) -> (query: RoleQuery)
    ensures
        query.page == match params.page {
            Some(page) => page,
            None => DEFAULT_PAGE,
        },
        query.per_page == match params.per_page {
            Some(per_page) => per_page,
            None => DEFAULT_PER_PAGE,
        },
        query.page_index == if query.page == 0 {
            0
        } else {
            query.page - 1
        },
        text_of(query.keyword) == keyword_pattern_of(text_of(params.q)),
        query.filters.deep_view() == match params.filter {
            Some(f) => role_filters_of(f@),
            None => Seq::empty(),
        },
{
    let (page, per_page, q, filter) = params.params();
    let keyword = match &q {
        Some(text) => keyword_pattern(Some(text.as_str())),
        None => None,
    };
    let filters = match &filter {
        Some(f) => parse_role_filter(f.as_str()),
        None => {
            let none: Vec<RoleFilter> = Vec::new();
            assert(none.deep_view() =~= Seq::<RoleFilterView>::empty());
            none
        },
    };
    RoleQuery { page, per_page, page_index: page_index(page), keyword, filters }
}

/// A text column of a user that the search can look into.
#[derive(Clone, Copy, Debug, PartialEq, Eq, Structural)]
pub enum TextField {
    Name,
    Email,
    ExternalEmail,
    Period,
}

/// A time column of a user that the search can bound.
#[derive(Clone, Copy, Debug, PartialEq, Eq, Structural)]
pub enum TimeField {
    /// When the user joined.
    Joined,
    /// When the user was created.
    Created,
    /// Until when the user is suspended.
    SuspendedUntil,
}

/// One condition of the user search.
#[derive(Clone, Debug, PartialEq, Eq)]
pub enum UserFilter {
    /// The user's name, address or custom id matches this pattern.
    Keyword(String),
    /// The user is enabled, or is not.
    IsEnable(bool),
    /// The user is suspended, or is not.
    IsSuspended(bool),
    /// The column holds this text.
    Contains(TextField, String),
    /// The column lies before this point in time.
    Before(TimeField, Instant),
    /// The column lies after this point in time.
    After(TimeField, Instant),
}

/// What a `UserFilter` holds.
pub enum UserFilterView {
    Keyword(Seq<char>),
    IsEnable(bool),
    IsSuspended(bool),
    Contains(TextField, Seq<char>),
    Before(TimeField, Instant),
    After(TimeField, Instant),
}

impl DeepView for UserFilter {
    type V = UserFilterView;

    open spec fn deep_view(&self) -> UserFilterView {
        match self {
            UserFilter::Keyword(pattern) => UserFilterView::Keyword(pattern@),
            UserFilter::IsEnable(v) => UserFilterView::IsEnable(*v),
            UserFilter::IsSuspended(v) => UserFilterView::IsSuspended(*v),
            UserFilter::Contains(field, text) => UserFilterView::Contains(*field, text@),
            UserFilter::Before(field, t) => UserFilterView::Before(*field, *t),
            UserFilter::After(field, t) => UserFilterView::After(*field, *t),
        }
    }
}

/// The parameters of the user search, as the request gives them.
#[derive(Clone, Debug)]
pub struct SearchParams {
    pub page: Option<usize>,
    pub per_page: Option<usize>,
    pub q: Option<String>,
    pub is_enable: Option<bool>,
    pub is_suspended: Option<bool>,
    pub name: Option<String>,
    pub email: Option<String>,
    pub external_email: Option<String>,
    pub period: Option<String>,
    pub joined_before: Option<String>,
    pub joined_after: Option<String>,
    pub created_before: Option<String>,
    pub created_after: Option<String>,
    pub suspended_before: Option<String>,
    pub suspended_after: Option<String>,
}

impl SearchParams {
    /// The page asked for, or the default.
    pub fn page(&self) -> (page: usize)
        ensures
            page == match self.page {
                Some(p) => p,
                None => DEFAULT_PAGE,
            },
    {
        match self.page {
            Some(p) => p,
            None => DEFAULT_PAGE,
        }
    }

    /// The page size asked for, or the default.
    pub fn per_page(&self) -> (per_page: usize)
        ensures
            per_page == match self.per_page {
                Some(p) => p,
                None => DEFAULT_PER_PAGE,
            },
    {
        match self.per_page {
            Some(p) => p,
            None => DEFAULT_PER_PAGE,
        }
    }
}

impl Default for SearchParams {
    /// The parameters of a request that gives none.
    fn default() -> (p: SearchParams)
        ensures
            p.page is None,
            p.per_page is None,
            p.q is None,
            p.is_enable is None,
            p.is_suspended is None,
            p.name is None,
            p.email is None,
            p.external_email is None,
            p.period is None,
            p.joined_before is None,
            p.joined_after is None,
            p.created_before is None,
            p.created_after is None,
            p.suspended_before is None,
            p.suspended_after is None,
    {
        SearchParams {
            page: None,
            per_page: None,
            q: None,
            is_enable: None,
            is_suspended: None,
            name: None,
            email: None,
            external_email: None,
            period: None,
            joined_before: None,
            joined_after: None,
            created_before: None,
            created_after: None,
            suspended_before: None,
            suspended_after: None,
        }
    }
}

/// The condition that the free-text query gives, if it holds more than white space.
pub open spec fn keyword_filter(q: Option<Seq<char>>) -> Seq<UserFilterView> {
    match keyword_pattern_of(q) {
        Some(pattern) => seq![UserFilterView::Keyword(pattern)],
        None => Seq::empty(),
    }
}

/// The condition that the parameter `is_enable` gives.
pub open spec fn enabled_filter(flag: Option<bool>) -> Seq<UserFilterView> {
    match flag {
        Some(v) => seq![UserFilterView::IsEnable(v)],
        None => Seq::empty(),
    }
}

/// The condition that the parameter `is_suspended` gives.
pub open spec fn suspended_filter(flag: Option<bool>) -> Seq<UserFilterView> {
    match flag {
        Some(v) => seq![UserFilterView::IsSuspended(v)],
        None => Seq::empty(),
    }
}

/// The condition that a text parameter gives: the column holds the text, as it is.
pub open spec fn contains_filter(field: TextField, text: Option<Seq<char>>) -> Seq<
    UserFilterView,
> {
    match text {
        Some(t) => seq![UserFilterView::Contains(field, t)],
        None => Seq::empty(),
    }
}

/// The condition that an upper time bound gives. A text that stands for no point in
/// time gives none.
pub open spec fn before_filter(field: TimeField, text: Option<Seq<char>>) -> Seq<
    UserFilterView,
> {
    match text {
        Some(t) => match instant_of(t) {
            Some(instant) => seq![UserFilterView::Before(field, instant)],
            None => Seq::empty(),
        },
        None => Seq::empty(),
    }
}

/// The condition that a lower time bound gives. A text that stands for no point in
/// time gives none.
pub open spec fn after_filter(field: TimeField, text: Option<Seq<char>>) -> Seq<
    UserFilterView,
> {
    match text {
        Some(t) => match instant_of(t) {
            Some(instant) => seq![UserFilterView::After(field, instant)],
            None => Seq::empty(),
        },
        None => Seq::empty(),
    }
}

/// The conditions of the user search with these parameters, which all have to
/// hold: one for each parameter that the request gives, in the order of the
/// parameters.
pub open spec fn user_filters_of(params: &SearchParams) -> Seq<UserFilterView> {
    keyword_filter(text_of(params.q))
        + enabled_filter(params.is_enable)
        + suspended_filter(params.is_suspended)
        + contains_filter(TextField::Name, text_of(params.name))
        + contains_filter(TextField::Email, text_of(params.email))
        + contains_filter(TextField::ExternalEmail, text_of(params.external_email))
        + contains_filter(TextField::Period, text_of(params.period))
        + before_filter(TimeField::Joined, text_of(params.joined_before))
        + after_filter(TimeField::Joined, text_of(params.joined_after))
        + before_filter(TimeField::Created, text_of(params.created_before))
        + after_filter(TimeField::Created, text_of(params.created_after))
        + before_filter(TimeField::SuspendedUntil, text_of(params.suspended_before))
        + after_filter(TimeField::SuspendedUntil, text_of(params.suspended_after))
}

/// Adds the condition that the free-text query gives.
fn push_keyword(filters: &mut Vec<UserFilter>, q: &Option<String>)
    ensures
        final(filters).deep_view() == old(filters).deep_view() + keyword_filter(text_of(*q)),
{
    let ghost before = filters.deep_view();
    let keyword = match q {
        Some(text) => keyword_pattern(Some(text.as_str())),
        None => None,
    };
    if let Some(pattern) = keyword {
        filters.push(UserFilter::Keyword(pattern));
    }
    assert(filters.deep_view() =~= before + keyword_filter(text_of(*q)));
}

/// Adds the condition that the parameter `is_enable` gives.
fn push_enabled(filters: &mut Vec<UserFilter>, flag: Option<bool>)
    ensures
        final(filters).deep_view() == old(filters).deep_view() + enabled_filter(flag),
{
    let ghost before = filters.deep_view();
    if let Some(v) = flag {
        filters.push(UserFilter::IsEnable(v));
    }
    assert(filters.deep_view() =~= before + enabled_filter(flag));
}

/// Adds the condition that the parameter `is_suspended` gives.
fn push_suspended(filters: &mut Vec<UserFilter>, flag: Option<bool>)
    ensures
        final(filters).deep_view() == old(filters).deep_view() + suspended_filter(flag),
{
    let ghost before = filters.deep_view();
    if let Some(v) = flag {
        filters.push(UserFilter::IsSuspended(v));
    }
    assert(filters.deep_view() =~= before + suspended_filter(flag));
}

/// Adds the condition that a text parameter gives.
fn push_contains(filters: &mut Vec<UserFilter>, field: TextField, text: &Option<String>)
    ensures
        final(filters).deep_view() == old(filters).deep_view() + contains_filter(
            field,
            text_of(*text),
        ),
{
    let ghost before = filters.deep_view();
    if let Some(t) = text {
        filters.push(UserFilter::Contains(field, t.clone()));
    }
    assert(filters.deep_view() =~= before + contains_filter(field, text_of(*text)));
}

/// Adds the condition that an upper time bound gives.
fn push_before(filters: &mut Vec<UserFilter>, field: TimeField, text: &Option<String>)
    ensures
        final(filters).deep_view() == old(filters).deep_view() + before_filter(
            field,
            text_of(*text),
        ),
{
    let ghost before = filters.deep_view();
    if let Some(t) = text {
        if let Some(instant) = parse_datetime(t.as_str()) {
            filters.push(UserFilter::Before(field, instant));
        }
    }
    assert(filters.deep_view() =~= before + before_filter(field, text_of(*text)));
}

/// Adds the condition that a lower time bound gives.
fn push_after(filters: &mut Vec<UserFilter>, field: TimeField, text: &Option<String>)
    ensures
        final(filters).deep_view() == old(filters).deep_view() + after_filter(
            field,
            text_of(*text),
        ),
{
    let ghost before = filters.deep_view();
    if let Some(t) = text {
        if let Some(instant) = parse_datetime(t.as_str()) {
            filters.push(UserFilter::After(field, instant));
        }
    }
    assert(filters.deep_view() =~= before + after_filter(field, text_of(*text)));
}

/// The conditions of the user search with these parameters.
pub fn user_filters(params: &SearchParams) -> (filters: Vec<UserFilter>)
    ensures
        filters.deep_view() == user_filters_of(params),
{
    let mut filters: Vec<UserFilter> = Vec::new();
    assert(filters.deep_view() =~= Seq::<UserFilterView>::empty());
    push_keyword(&mut filters, &params.q);
    assert(filters.deep_view() =~= keyword_filter(text_of(params.q)));
    push_enabled(&mut filters, params.is_enable);
    push_suspended(&mut filters, params.is_suspended);
    push_contains(&mut filters, TextField::Name, &params.name);
    push_contains(&mut filters, TextField::Email, &params.email);
    push_contains(&mut filters, TextField::ExternalEmail, &params.external_email);
    push_contains(&mut filters, TextField::Period, &params.period);
    push_before(&mut filters, TimeField::Joined, &params.joined_before);
    push_after(&mut filters, TimeField::Joined, &params.joined_after);
    push_before(&mut filters, TimeField::Created, &params.created_before);
    push_after(&mut filters, TimeField::Created, &params.created_after);
    push_before(&mut filters, TimeField::SuspendedUntil, &params.suspended_before);
    push_after(&mut filters, TimeField::SuspendedUntil, &params.suspended_after);
    filters
}

/// What the user search asks of the store.
#[derive(Clone, Debug)]
pub struct UserQuery {
    /// The page, counted from 1, as the response reports it.
    pub page: usize,
    /// The number of rows on a page.
    pub per_page: usize,
    /// The page, counted from 0, that the store is asked for.
    pub page_index: usize,
    /// The conditions that all have to hold.
    pub filters: Vec<UserFilter>,
}

/// Whether `query` is what the user search with the parameters `params` asks of the
/// store: the page and the page size asked for, or their defaults; the page's index
/// from 0; and the conditions that the parameters give.
pub open spec fn is_user_query(query: &UserQuery, params: &SearchParams) -> bool {
    &&& query.page == match params.page {
        Some(page) => page,
        None => DEFAULT_PAGE,
    }
    &&& query.per_page == match params.per_page {
        Some(per_page) => per_page,
        None => DEFAULT_PER_PAGE,
    }
    &&& query.page_index == if query.page == 0 {
        0
    } else {
        query.page - 1
    }
    &&& query.filters.deep_view() == user_filters_of(params)
}

/// What the user search with these parameters asks of the store. Rows come ordered
/// by name.
pub fn user_query(params: &SearchParams) -> (query: UserQuery)
    ensures
        is_user_query(&query, params),
{
    let page = params.page();
    let per_page = params.per_page();
    UserQuery { page, per_page, page_index: page_index(page), filters: user_filters(params) }
}

/// What a search response says about its pages.
#[derive(Clone, Copy, Debug, PartialEq, Eq, Structural)]
pub struct SearchMetadata {
    /// The page shown, counted from 1.
    pub page: usize,
    /// The number of rows on a page.
    pub per_page: usize,
    /// The number of rows that match.
    pub total: u64,
    /// The number of pages that the matching rows fill.
    pub total_pages: u64,
}

/// What the response to a search with `total` matching rows says about its pages.
pub fn search_metadata(page: usize, per_page: usize, total: u64) -> (meta: SearchMetadata)
    requires
        per_page > 0,
    ensures
        meta.page == page,
        meta.per_page == per_page,
        meta.total == total,
        meta.total_pages == pages_for(total as nat, per_page as nat),
{
    SearchMetadata { page, per_page, total, total_pages: total_pages(total, per_page as u64) }
}

/// The user search, for a caller whose roles the store answered with: the search
/// asks for `USER_READ`. Without it, or where the store failed, the request ends
/// with that rejection and nothing is asked of the store; with it, the result is
/// what the search asks of the store.
pub fn search_users(params: &SearchParams, lookup: &RoleLookup) -> (r: Result<
    UserQuery,
    Rejection,
>)
    ensures
        match permission_outcome(Permission::USER_READ, lookup@) {
            Err(e) => r == Err::<UserQuery, Rejection>(e),
            Ok(_) => r matches Ok(query) && is_user_query(&query, params),
        },
{
    match search_users_guard(lookup) {
        Err(e) => Err(e),
        Ok(_) => Ok(user_query(params)),
    }
}

/// The rows of one page and the number of all rows that match, as the store
/// answered with them. Where the store failed at either, the listing is an internal
/// error: a failure is never shown as an empty or a partial listing.
pub fn page_outcome<T>(rows: StoreAnswer<Vec<T>>, total: StoreAnswer<u64>) -> (r: Result<
    (Vec<T>, u64),
    Rejection,
>)
    ensures
        r == match (rows, total) {
            (StoreAnswer::Answered(data), StoreAnswer::Answered(count)) => Ok::<
                (Vec<T>, u64),
                Rejection,
            >((data, count)),
            _ => Err::<(Vec<T>, u64), Rejection>(Rejection::InternalError),
        },
{
    match rows {
        StoreAnswer::StoreError => Err(Rejection::InternalError),
        StoreAnswer::Answered(data) => match total {
            StoreAnswer::StoreError => Err(Rejection::InternalError),
            StoreAnswer::Answered(count) => Ok((data, count)),
        },
    }
}

/// One page of a user search, as the response shows it.
#[derive(Clone, Debug)]
pub struct SearchPage<T> {
    /// The rows of the page.
    pub data: Vec<T>,
    /// What the response says about the pages.
    pub meta: SearchMetadata,
}

/// The response to the user search `query`, from the store's answers to the page
/// and to the count: the rows as they came, with the page, the page size, the count
/// and the number of pages; an internal error where the store failed at either.
pub fn user_search_response<T>(
    query: &UserQuery,
    rows: StoreAnswer<Vec<T>>,
    total: StoreAnswer<u64>,
) -> (r: Result<SearchPage<T>, Rejection>)
    requires
        query.per_page > 0,
    ensures
        match (rows, total) {
            (StoreAnswer::Answered(data), StoreAnswer::Answered(count)) => {
                &&& r matches Ok(page)
                &&& page.data == data
                &&& page.meta.page == query.page
                &&& page.meta.per_page == query.per_page
                &&& page.meta.total == count
                &&& page.meta.total_pages == pages_for(count as nat, query.per_page as nat)
            },
            _ => r matches Err(e) && e == Rejection::InternalError,
        },
{
    match page_outcome(rows, total) {
        Err(e) => Err(e),
        Ok((data, count)) => Ok(
            SearchPage { data, meta: search_metadata(query.page, query.per_page, count) },
        ),
    }
}

/// One page of a role search, as the response shows it.
#[derive(Clone, Debug)]
pub struct RoleSearchPage<T> {
    /// The rows of the page.
    pub data: Vec<T>,
    /// The page shown, counted from 1.
    pub page: usize,
    /// The number of rows on a page.
    pub per_page: usize,
    /// The number of rows that match.
    pub total: u64,
}

/// The response to the role search `query`, from the store's answers to the page
/// and to the count: the rows as they came, with the page, the page size and the
/// count; an internal error where the store failed at either.
pub fn role_search_response<T>(
    query: &RoleQuery,
    rows: StoreAnswer<Vec<T>>,
    total: StoreAnswer<u64>,
) -> (r: Result<RoleSearchPage<T>, Rejection>)
    ensures
        match (rows, total) {
            (StoreAnswer::Answered(data), StoreAnswer::Answered(count)) => {
                &&& r matches Ok(page)
                &&& page.data == data
                &&& page.page == query.page
                &&& page.per_page == query.per_page
                &&& page.total == count
            },
            _ => r matches Err(e) && e == Rejection::InternalError,
        },
{
    match page_outcome(rows, total) {
        Err(e) => Err(e),
        Ok((data, count)) => Ok(
            RoleSearchPage { data, page: query.page, per_page: query.per_page, total: count },
        ),
    }
}

} // verus!
