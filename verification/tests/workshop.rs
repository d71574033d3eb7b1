use arsa_backend::error::ArsaError;
use arsa_backend::workshop::{
    check_upstream_status, default_page, upstream_detail_base, upstream_workshop_json_url,
    workshop_detail_request, workshop_query_pairs, workshop_scenarios_request,
    AssetScenariosResponse, AssetVersionDetail, Scenario, Sort, UpstreamRoute, WorkshopQuery,
};

fn pairs(v: &[(&str, &str)]) -> Vec<(String, String)> {
    v.iter().map(|(a, b)| (a.to_string(), b.to_string())).collect()
}

#[test]
fn upstream_urls() {
    assert_eq!(
        upstream_workshop_json_url("abc123"),
        "https://reforger.armaplatform.com/_next/data/abc123/workshop.json"
    );
    assert_eq!(
        upstream_detail_base("abc123"),
        "https://reforger.armaplatform.com/_next/data/abc123/workshop"
    );
}

#[test]
fn search_query_pairs() {
    let q = WorkshopQuery {
        search: Some("My Mod".to_string()),
        tags: vec!["VEHICLES".to_string(), "COMPOSITIONS".to_string()],
        sort: Sort::VersionSize,
        page: 12,
    };
    assert_eq!(
        workshop_query_pairs(&q),
        pairs(&[
            ("search", "My Mod"),
            ("tags", "VEHICLES"),
            ("tags", "COMPOSITIONS"),
            ("sort", "version_size"),
            ("page", "12")
        ])
    );
    let q = WorkshopQuery { search: None, tags: vec![], sort: Sort::default(), page: default_page() };
    assert_eq!(workshop_query_pairs(&q), pairs(&[("sort", "newest"), ("page", "1")]));
}

#[test]
fn sort_params() {
    assert_eq!(Sort::Newest.as_param(), "newest");
    assert_eq!(Sort::Popularity.as_param(), "popularity");
    assert_eq!(Sort::Subscribers.as_param(), "subscribers");
    assert_eq!(Sort::VersionSize.as_param(), "version_size");
}

#[test]
fn detail_and_scenario_requests() {
    let r = workshop_detail_request("b1", "5965550F24A0C152");
    assert_eq!(
        r.url,
        "https://reforger.armaplatform.com/_next/data/b1/workshop/5965550F24A0C152-asset.json"
    );
    assert_eq!(r.query, pairs(&[("id", "5965550F24A0C152-asset")]));
    let r = workshop_scenarios_request("b1", "CAFEBEEFF0CACC1A");
    assert_eq!(
        r.url,
        "https://reforger.armaplatform.com/_next/data/b1/workshop/CAFEBEEFF0CACC1A/scenarios.json"
    );
    assert_eq!(r.query, pairs(&[("id", "CAFEBEEFF0CACC1A")]));
}

#[test]
fn upstream_status_meaning() {
    assert!(check_upstream_status(200, UpstreamRoute::Asset).is_ok());
    assert!(check_upstream_status(204, UpstreamRoute::Search).is_ok());
    assert!(matches!(check_upstream_status(404, UpstreamRoute::Asset), Err(ArsaError::NotFound)));
    assert!(matches!(check_upstream_status(404, UpstreamRoute::Search), Err(ArsaError::BadRequest)));
    assert!(matches!(check_upstream_status(503, UpstreamRoute::Search), Err(ArsaError::BadRequest)));
    match check_upstream_status(503, UpstreamRoute::Asset) {
        Err(ArsaError::UnknownError(m)) => {
            assert_eq!(m, "Upstream returned status 503 Service Unavailable")
        }
        other => panic!("unexpected {:?}", other),
    }
    match check_upstream_status(400, UpstreamRoute::Asset) {
        Err(ArsaError::UnknownError(m)) => assert_eq!(m, "Upstream returned status 400 Bad Request"),
        other => panic!("unexpected {:?}", other),
    }
}

#[test]
fn scenarios_answer() {
    let detail = AssetVersionDetail {
        changelog: Some("fixes".to_string()),
        scenarios: vec![Scenario {
            name: "Conflict".to_string(),
            image: None,
            game_id: "{E2EC49F1}Missions/Conflict.conf".to_string(),
            game_mode: None,
            author_name: None,
            description: None,
            player_count: 64,
        }],
        dependencies: vec![],
    };
    let r = AssetScenariosResponse::from_version_detail("ABC".to_string(), detail);
    assert_eq!(r.asset_id, "ABC");
    assert_eq!(r.scenarios.len(), 1);
    assert_eq!(r.scenarios[0].player_count, 64);
    assert!(r.dependencies.is_empty());
}
