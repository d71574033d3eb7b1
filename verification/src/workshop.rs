//! Requests to the upstream Arma Reforger workshop and the answers built from its data.
use vstd::prelude::*;

use crate::bindings::status_line;
use crate::error::ArsaError;
use crate::text::{concat2, concat3, decimal, opt_text, spec_decimal};

verus! {

/// The site that hosts the workshop.
pub const UPSTREAM_HOST: &'static str = "https://reforger.armaplatform.com";

/// The workshop search data of the site build `build_id`.
pub open spec fn spec_workshop_json_url(build_id: Seq<char>) -> Seq<char> {
    UPSTREAM_HOST@ + "/_next/data/"@ + build_id + "/workshop.json"@
}

/// The base of the workshop asset data of the site build `build_id`.
pub open spec fn spec_detail_base(build_id: Seq<char>) -> Seq<char> {
    UPSTREAM_HOST@ + "/_next/data/"@ + build_id + "/workshop"@
}

/// The workshop search data of the site build `build_id`.
pub fn upstream_workshop_json_url(build_id: &str) -> (r: String)
    ensures
        r@ == spec_workshop_json_url(build_id@),
{
    let head = concat2(UPSTREAM_HOST, "/_next/data/");
    concat3(head.as_str(), build_id, "/workshop.json")
}

/// The base of the workshop asset data of the site build `build_id`.
pub fn upstream_detail_base(build_id: &str) -> (r: String)
    ensures
        r@ == spec_detail_base(build_id@),
{
    let head = concat2(UPSTREAM_HOST, "/_next/data/");
    concat3(head.as_str(), build_id, "/workshop")
}

/// The tags the workshop knows.
#[derive(Debug, Clone, Copy, PartialEq, Eq, Structural)]
pub enum Tag {
    Vehicles,
    Weapons,
    Structures,
    Characters,
    Animals,
    Vegetation,
    Props,
    Compositions,
    ScenariosSp,
    ScenariosMP,
    Terrains,
    Systems,
    Effects,
    Misc,
}

/// The orders the workshop can sort by.
#[derive(Debug, Clone, Copy, PartialEq, Eq, Structural)]
pub enum Sort {
    Newest,
    Popularity,
    Subscribers,
    VersionSize,
}

impl Default for Sort {
    /// Newest first.
    fn default() -> (r: Sort)
        ensures
            r == Sort::Newest,
    {
        Sort::Newest
    }
}

/// How the workshop spells a sort order.
pub open spec fn spec_sort_param(s: Sort) -> Seq<char> {
    match s {
        Sort::Newest => "newest"@,
        Sort::Popularity => "popularity"@,
        Sort::Subscribers => "subscribers"@,
        Sort::VersionSize => "version_size"@,
    }
}

impl Sort {
    /// How the workshop spells this sort order.
    pub fn as_param(&self) -> (r: String)
        ensures
            r@ == spec_sort_param(*self),
    {
        match self {
            Sort::Newest => "newest".to_owned(),
            Sort::Popularity => "popularity".to_owned(),
            Sort::Subscribers => "subscribers".to_owned(),
            Sort::VersionSize => "version_size".to_owned(),
        }
    }
}

/// A workshop search.
#[derive(Debug)]
pub struct WorkshopQuery {
    pub search: Option<String>,
    pub tags: Vec<String>,
    pub sort: Sort,
    /// 1-based.
    pub page: u32,
}

/// The page a search shows when none is asked for.
pub fn default_page() -> (r: u32)
    ensures
        r == 1,
{
    1
}

/// Query pairs as plain values.
pub open spec fn pairs_view(v: Seq<(String, String)>) -> Seq<(Seq<char>, Seq<char>)> {
    v.map_values(|p: (String, String)| (p.0@, p.1@))
}

/// The query of a workshop search: the search text if any, one `tags` pair per tag in
/// order, then the sort order and the page.
pub open spec fn spec_workshop_query(
    search: Option<Seq<char>>,
    tags: Seq<Seq<char>>,
    sort: Sort,
    page: u32,
) -> Seq<(Seq<char>, Seq<char>)> {
    let head = match search {
        Some(s) => seq![("search"@, s)],
        None => Seq::<(Seq<char>, Seq<char>)>::empty(),
    };
    head + tags.map_values(|t: Seq<char>| ("tags"@, t)) + seq![
        ("sort"@, spec_sort_param(sort)),
        ("page"@, spec_decimal(page as nat)),
    ]
}

/// The layout of a search's query: the search text first when there is one, then exactly
/// one `tags` pair for each requested tag, in the order requested, then the sort order and
/// the page. No other pair is named `tags`.
pub proof fn lemma_workshop_query_layout(
    search: Option<Seq<char>>,
    tags: Seq<Seq<char>>,
    sort: Sort,
    page: u32,
)
    ensures
        ({
            let q = spec_workshop_query(search, tags, sort, page);
            let h: int = if search is Some {
                1
            } else {
                0
            };
            &&& q.len() == h + tags.len() + 2
            &&& search matches Some(s) ==> q[0] == ("search"@, s)
            &&& forall|i: int| 0 <= i < tags.len() ==> #[trigger] q[h + i] == ("tags"@, tags[i])
            &&& forall|j: int|
                0 <= j < q.len() && !(h <= j < h + tags.len()) ==> (#[trigger] q[j]).0 != "tags"@
            &&& q[h + tags.len()] == ("sort"@, spec_sort_param(sort))
            &&& q[h + tags.len() + 1] == ("page"@, spec_decimal(page as nat))
        }),
{
    reveal_strlit("search");
    reveal_strlit("tags");
    reveal_strlit("sort");
    reveal_strlit("page");
    let q = spec_workshop_query(search, tags, sort, page);
    let h: int = if search is Some {
        1
    } else {
        0
    };
    let head = match search {
        Some(s) => seq![("search"@, s)],
        None => Seq::<(Seq<char>, Seq<char>)>::empty(),
    };
    let mid = tags.map_values(|t: Seq<char>| ("tags"@, t));
    let tail = seq![("sort"@, spec_sort_param(sort)), ("page"@, spec_decimal(page as nat))];
    assert(q == head + mid + tail);
    assert(head.len() == h);
    assert forall|i: int| 0 <= i < tags.len() implies #[trigger] q[h + i] == ("tags"@, tags[i]) by {
        assert(q[h + i] == mid[i]);
    }
    assert("search"@[1] != "tags"@[1]);
    assert("sort"@[1] != "tags"@[1]);
    assert("page"@[0] != "tags"@[0]);
    assert forall|j: int|
        0 <= j < q.len() && !(h <= j < h + tags.len()) implies (#[trigger] q[j]).0 != "tags"@ by {
        if j < h {
            assert(q[j] == head[j]);
            assert(q[j].0 == "search"@);
        } else {
            assert(q[j] == tail[j - h - tags.len()]);
        }
    }
    assert(q[h + tags.len()] == tail[0]);
    assert(q[h + tags.len() + 1] == tail[1]);
}

fn push_pair(v: &mut Vec<(String, String)>, k: String, x: String)
    ensures
        pairs_view(final(v)@) == pairs_view(old(v)@).push((k@, x@)),
{
    let ghost before = v@;
    v.push((k, x));
    proof {
        assert(pairs_view(v@) =~= pairs_view(before).push((k@, x@)));
    }
}

/// The query pairs sent upstream for a workshop search.
pub fn workshop_query_pairs(q: &WorkshopQuery) -> (r: Vec<(String, String)>)
    ensures
        pairs_view(r@) == spec_workshop_query(
            opt_text(q.search),
            q.tags@.map_values(|t: String| t@),
            q.sort,
            q.page,
        ),
{
    let ghost search_v = opt_text(q.search);
    let ghost tags_v = q.tags@.map_values(|t: String| t@);
    let mut v: Vec<(String, String)> = Vec::new();
    match &q.search {
        Some(s) => push_pair(&mut v, "search".to_owned(), s.clone()),
        None => {},
    }
    let ghost head = pairs_view(v@);
    proof {
        assert(head =~= match search_v {
            Some(s) => seq![("search"@, s)],
            None => Seq::<(Seq<char>, Seq<char>)>::empty(),
        });
    }
    let mut i: usize = 0;
    while i < q.tags.len()
        invariant
            i <= q.tags@.len(),
            tags_v == q.tags@.map_values(|t: String| t@),
            pairs_view(v@) == head + tags_v.subrange(0, i as int).map_values(
                |t: Seq<char>| ("tags"@, t),
            ),
        decreases q.tags@.len() - i,
    {
        push_pair(&mut v, "tags".to_owned(), q.tags[i].clone());
        proof {
            assert(tags_v.subrange(0, i + 1).map_values(|t: Seq<char>| ("tags"@, t))
                =~= tags_v.subrange(0, i as int).map_values(|t: Seq<char>| ("tags"@, t)).push(
                ("tags"@, q.tags@[i as int]@),
            ));
        }
        i = i + 1;
    }
    proof {
        assert(tags_v.subrange(0, q.tags@.len() as int) =~= tags_v);
    }
    push_pair(&mut v, "sort".to_owned(), q.sort.as_param());
    push_pair(&mut v, "page".to_owned(), decimal(q.page as u64));
    proof {
        assert(pairs_view(v@) =~= spec_workshop_query(search_v, tags_v, q.sort, q.page));
    }
    v
}

/// A request upstream: the address and its query pairs.
#[derive(Debug)]
pub struct UpstreamRequest {
    pub url: String,
    pub query: Vec<(String, String)>,
}

/// The request for the details of asset `id`: `<base>/<id>-asset.json?id=<id>-asset`.
pub fn workshop_detail_request(build_id: &str, id: &str) -> (r: UpstreamRequest)
    ensures
        r.url@ == spec_detail_base(build_id@) + "/"@ + id@ + "-asset.json"@,
        pairs_view(r.query@) == seq![("id"@, id@ + "-asset"@)],
{
    let base = upstream_detail_base(build_id);
    let with_sep = concat2(base.as_str(), "/");
    let url = concat3(with_sep.as_str(), id, "-asset.json");
    let slug = concat2(id, "-asset");
    let mut query: Vec<(String, String)> = Vec::new();
    push_pair(&mut query, "id".to_owned(), slug);
    proof {
        assert(pairs_view(query@) =~= seq![("id"@, id@ + "-asset"@)]);
    }
    UpstreamRequest { url, query }
}

/// The request for the scenarios of asset `id`: `<base>/<id>/scenarios.json?id=<id>`.
pub fn workshop_scenarios_request(build_id: &str, id: &str) -> (r: UpstreamRequest)
    ensures
        r.url@ == spec_detail_base(build_id@) + "/"@ + id@ + "/scenarios.json"@,
        pairs_view(r.query@) == seq![("id"@, id@)],
{
    let base = upstream_detail_base(build_id);
    let with_sep = concat2(base.as_str(), "/");
    let url = concat3(with_sep.as_str(), id, "/scenarios.json");
    let mut query: Vec<(String, String)> = Vec::new();
    push_pair(&mut query, "id".to_owned(), id.to_owned());
    proof {
        assert(pairs_view(query@) =~= seq![("id"@, id@)]);
    }
    UpstreamRequest { url, query }
}

/// Which upstream route a request went to.
#[derive(Debug, Clone, Copy, PartialEq, Eq, Structural)]
pub enum UpstreamRoute {
    /// The workshop search.
    Search,
    /// The data of one asset (its details or its scenarios).
    Asset,
}

/// What an upstream answer's status means: success goes on. A failed search is a bad
/// request. For an asset, 404 is a missing asset and any other failure is an internal
/// error naming the status.
pub fn check_upstream_status(code: u16, route: UpstreamRoute) -> (r: Result<(), ArsaError>)
    requires
        100 <= code <= 999,
    ensures
        200 <= code < 300 ==> r is Ok,
        !(200 <= code < 300) && route == UpstreamRoute::Search ==> r matches Err(
            ArsaError::BadRequest,
        ),
        route == UpstreamRoute::Asset && code == 404 ==> r matches Err(ArsaError::NotFound),
        !(200 <= code < 300) && route == UpstreamRoute::Asset && code != 404 ==> (r matches Err(
            ArsaError::UnknownError(m),
        ) && crate::bindings::spec_status_line(code) matches Some(t) && m@
            == "Upstream returned status "@ + t),
{
    if 200 <= code && code < 300 {
        return Ok(());
    }
    match route {
        UpstreamRoute::Search => Err(ArsaError::BadRequest),
        UpstreamRoute::Asset => {
            if code == 404 {
                return Err(ArsaError::NotFound);
            }
            let text = match status_line(code) {
                Some(t) => t,
                None => String::new(),
            };
            Err(ArsaError::UnknownError(concat2("Upstream returned status ", text.as_str())))
        },
    }
}

/// An image with pre-generated thumbnails.
#[derive(Debug)]
pub struct ScenarioImage {
    pub url: String,
    pub width: u32,
    pub height: u32,
    pub content_type: String,
}

/// A playable scenario bundled with an asset.
#[derive(Debug)]
pub struct Scenario {
    pub name: String,
    pub image: Option<ScenarioImage>,
    pub game_id: String,
    pub game_mode: Option<String>,
    pub author_name: Option<String>,
    pub description: Option<String>,
    pub player_count: u32,
}

/// The asset a dependency names.
#[derive(Debug)]
pub struct DependencyAssetStub {
    pub id: String,
    pub name: String,
}

/// A resolved workshop dependency, with its own dependencies.
#[derive(Debug)]
pub struct Dependency {
    pub version: String,
    pub blocked: bool,
    pub private: bool,
    pub published: bool,
    pub total_file_size: u64,
    pub asset: DependencyAssetStub,
    pub dependencies: Vec<Dependency>,
}

/// Changelog, scenarios and dependencies of an asset's current version.
#[derive(Debug)]
pub struct AssetVersionDetail {
    pub changelog: Option<String>,
    pub scenarios: Vec<Scenario>,
    pub dependencies: Vec<Dependency>,
}

/// The scenarios and dependencies of an asset.
#[derive(Debug)]
pub struct AssetScenariosResponse {
    pub asset_id: String,
    pub scenarios: Vec<Scenario>,
    pub dependencies: Vec<Dependency>,
}

impl AssetScenariosResponse {
    /// The answer for asset `asset_id` from the details of its current version.
    pub fn from_version_detail(asset_id: String, detail: AssetVersionDetail) -> (r:
        AssetScenariosResponse)
        ensures
            r.asset_id == asset_id,
            r.scenarios == detail.scenarios,
            r.dependencies == detail.dependencies,
    {
        AssetScenariosResponse {
            asset_id,
            scenarios: detail.scenarios,
            dependencies: detail.dependencies,
        }
    }
}

} // verus!
