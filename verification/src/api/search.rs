//! Searches: requests.

use vstd::prelude::*;

use crate::api::{ApiParams, List, SortOrder};
use crate::text::{push_char, push_str, spec_dec, u64_to_dec};
use crate::wire::{opt_param, opt_wire, param, ParamView, Params, WireValue};

verus! {

/// How many result rows to return, and from where.
#[non_exhaustive]
#[derive(Clone, Copy, Debug, PartialEq, Eq, Structural)]
pub enum FetchRows {
    /// At most this many rows.
    Limit(u32),
    /// `limit` rows after the first `offset`.
    Page { offset: u32, limit: u32 },
}

impl FetchRows {
    /// At most `n` rows.
    pub fn limit(n: u32) -> (r: FetchRows)
        ensures
            r == FetchRows::Limit(n),
    {
        FetchRows::Limit(n)
    }

    /// `limit` rows after the first `offset`.
    pub fn page(offset: u32, limit: u32) -> (r: FetchRows)
        ensures
            r == (FetchRows::Page { offset, limit }),
    {
        FetchRows::Page { offset, limit }
    }
}

/// A limit goes out as its number, a page as `offset,limit`.
impl WireValue for FetchRows {
    open spec fn wire(&self) -> Seq<char> {
        match *self {
            FetchRows::Limit(n) => spec_dec(n as nat),
            FetchRows::Page { offset, limit } => spec_dec(offset as nat) + seq![','] + spec_dec(
                limit as nat,
            ),
        }
    }

    fn to_wire(&self) -> (r: String) {
        match *self {
            FetchRows::Limit(n) => u64_to_dec(n as u64),
            FetchRows::Page { offset, limit } => {
                let mut out = u64_to_dec(offset as u64);
                push_char(&mut out, ',');
                let l = u64_to_dec(limit as u64);
                push_str(&mut out, l.as_str());
                out
            },
        }
    }
}

/// Parameters of `do_search`.
#[non_exhaustive]
#[derive(Clone, Debug, PartialEq)]
pub struct DoSearchRequest {
    /// The search text.
    pub search: String,
    /// Only resources of these types.
    pub restypes: Option<List<u32>>,
    /// Column to order by.
    pub order_by: Option<String>,
    /// Only resources in this archive state.
    pub archive: Option<i8>,
    /// How many rows to return, and from where.
    pub fetchrows: Option<FetchRows>,
    /// Sort direction.
    pub sort: Option<SortOrder>,
    /// Number of results to skip.
    pub offset: Option<u32>,
}

impl DoSearchRequest {
    /// A request with the given parameters; the optional ones are left unset.
    pub fn new(search: String) -> (r: Self)
        ensures
            r == (Self {
                search,
                restypes: None,
                order_by: None,
                archive: None,
                fetchrows: None,
                sort: None,
                offset: None,
            }),
    {
        Self {
            search,
            restypes: None,
            order_by: None,
            archive: None,
            fetchrows: None,
            sort: None,
            offset: None,
        }
    }

    /// Sets [`Self::restypes`].
    pub fn restypes(self, restypes: List<u32>) -> (r: Self)
        ensures
            r == (Self { restypes: Some(restypes), ..self }),
    {
        Self { restypes: Some(restypes), ..self }
    }

    /// Sets [`Self::order_by`].
    pub fn order_by(self, order_by: String) -> (r: Self)
        ensures
            r == (Self { order_by: Some(order_by), ..self }),
    {
        Self { order_by: Some(order_by), ..self }
    }

    /// Sets [`Self::archive`].
    pub fn archive(self, archive: i8) -> (r: Self)
        ensures
            r == (Self { archive: Some(archive), ..self }),
    {
        Self { archive: Some(archive), ..self }
    }

    /// Sets [`Self::fetchrows`].
    pub fn fetchrows(self, fetchrows: FetchRows) -> (r: Self)
        ensures
            r == (Self { fetchrows: Some(fetchrows), ..self }),
    {
        Self { fetchrows: Some(fetchrows), ..self }
    }

    /// Sets [`Self::sort`].
    pub fn sort(self, sort: SortOrder) -> (r: Self)
        ensures
            r == (Self { sort: Some(sort), ..self }),
    {
        Self { sort: Some(sort), ..self }
    }

    /// Sets [`Self::offset`].
    pub fn offset(self, offset: u32) -> (r: Self)
        ensures
            r == (Self { offset: Some(offset), ..self }),
    {
        Self { offset: Some(offset), ..self }
    }
}

impl ApiParams for DoSearchRequest {
    open spec fn spec_params(&self) -> Seq<ParamView> {
        param("search"@, self.search.wire())
            + opt_param("restypes"@, opt_wire(self.restypes))
            + opt_param("order_by"@, opt_wire(self.order_by))
            + opt_param("archive"@, opt_wire(self.archive))
            + opt_param("fetchrows"@, opt_wire(self.fetchrows))
            + opt_param("sort"@, opt_wire(self.sort))
            + opt_param("offset"@, opt_wire(self.offset))
    }

    fn to_params(&self) -> (r: Params) {
        let mut p = Params::new();
        p.push("search", &self.search);
        p.push_opt("restypes", &self.restypes);
        p.push_opt("order_by", &self.order_by);
        p.push_opt("archive", &self.archive);
        p.push_opt("fetchrows", &self.fetchrows);
        p.push_opt("sort", &self.sort);
        p.push_opt("offset", &self.offset);
        p
    }
}

/// Parameters of `search_get_previews`: a search that also returns preview URLs.
#[non_exhaustive]
#[derive(Clone, Debug, PartialEq)]
pub struct SearchGetPreviewsRequest {
    /// The search text.
    pub search: String,
    /// Only resources of these types.
    pub restypes: Option<List<u32>>,
    /// Column to order by.
    pub order_by: Option<String>,
    /// Only resources in this archive state.
    pub archive: Option<i8>,
    /// How many rows to return, and from where.
    pub fetchrows: Option<FetchRows>,
    /// Sort direction.
    pub sort: Option<SortOrder>,
    /// Only resources added within so many days.
    pub recent_search_daylimit: Option<String>,
    /// Preview sizes to return URLs for.
    pub getsizes: Option<List<String>>,
    /// File extension of the previews.
    pub previewext: Option<String>,
}

impl SearchGetPreviewsRequest {
    /// A request with the given parameters; the optional ones are left unset.
    pub fn new(search: String) -> (r: Self)
        ensures
            r == (Self {
                search,
                restypes: None,
                order_by: None,
                archive: None,
                fetchrows: None,
                sort: None,
                recent_search_daylimit: None,
                getsizes: None,
                previewext: None,
            }),
    {
        Self {
            search,
            restypes: None,
            order_by: None,
            archive: None,
            fetchrows: None,
            sort: None,
            recent_search_daylimit: None,
            getsizes: None,
            previewext: None,
        }
    }

    /// Sets [`Self::restypes`].
    pub fn restypes(self, restypes: List<u32>) -> (r: Self)
        ensures
            r == (Self { restypes: Some(restypes), ..self }),
    {
        Self { restypes: Some(restypes), ..self }
    }

    /// Sets [`Self::order_by`].
    pub fn order_by(self, order_by: String) -> (r: Self)
        ensures
            r == (Self { order_by: Some(order_by), ..self }),
    {
        Self { order_by: Some(order_by), ..self }
    }

    /// Sets [`Self::archive`].
    pub fn archive(self, archive: i8) -> (r: Self)
        ensures
            r == (Self { archive: Some(archive), ..self }),
    {
        Self { archive: Some(archive), ..self }
    }

    /// Sets [`Self::fetchrows`].
    pub fn fetchrows(self, fetchrows: FetchRows) -> (r: Self)
        ensures
            r == (Self { fetchrows: Some(fetchrows), ..self }),
    {
        Self { fetchrows: Some(fetchrows), ..self }
    }

    /// Sets [`Self::sort`].
    pub fn sort(self, sort: SortOrder) -> (r: Self)
        ensures
            r == (Self { sort: Some(sort), ..self }),
    {
        Self { sort: Some(sort), ..self }
    }

    /// Sets [`Self::recent_search_daylimit`].
    pub fn recent_search_daylimit(self, recent_search_daylimit: String) -> (r: Self)
        ensures
            r == (Self { recent_search_daylimit: Some(recent_search_daylimit), ..self }),
    {
        Self { recent_search_daylimit: Some(recent_search_daylimit), ..self }
    }

    /// Sets [`Self::getsizes`].
    pub fn getsizes(self, getsizes: List<String>) -> (r: Self)
        ensures
            r == (Self { getsizes: Some(getsizes), ..self }),
    {
        Self { getsizes: Some(getsizes), ..self }
    }

    /// Sets [`Self::previewext`].
    pub fn previewext(self, previewext: String) -> (r: Self)
        ensures
            r == (Self { previewext: Some(previewext), ..self }),
    {
        Self { previewext: Some(previewext), ..self }
    }
}

impl ApiParams for SearchGetPreviewsRequest {
    open spec fn spec_params(&self) -> Seq<ParamView> {
        param("search"@, self.search.wire())
            + opt_param("restypes"@, opt_wire(self.restypes))
            + opt_param("order_by"@, opt_wire(self.order_by))
            + opt_param("archive"@, opt_wire(self.archive))
            + opt_param("fetchrows"@, opt_wire(self.fetchrows))
            + opt_param("sort"@, opt_wire(self.sort))
            + opt_param("recent_search_daylimit"@, opt_wire(self.recent_search_daylimit))
            + opt_param("getsizes"@, opt_wire(self.getsizes))
            + opt_param("previewext"@, opt_wire(self.previewext))
    }

    fn to_params(&self) -> (r: Params) {
        let mut p = Params::new();
        p.push("search", &self.search);
        p.push_opt("restypes", &self.restypes);
        p.push_opt("order_by", &self.order_by);
        p.push_opt("archive", &self.archive);
        p.push_opt("fetchrows", &self.fetchrows);
        p.push_opt("sort", &self.sort);
        p.push_opt("recent_search_daylimit", &self.recent_search_daylimit);
        p.push_opt("getsizes", &self.getsizes);
        p.push_opt("previewext", &self.previewext);
        p
    }
}

} // verus!
