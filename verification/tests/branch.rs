use arsa_backend::branch::{
    get_image_branch_as_string, get_image_name, image_name_for_tag, scenario_lister_name, Branch,
};

#[test]
fn branch_names_and_images() {
    assert_eq!(Branch::default(), Branch::Stable);
    assert_eq!(get_image_branch_as_string(&Branch::Stable), "stable");
    assert_eq!(get_image_branch_as_string(&Branch::Experimental), "experimental");
    assert_eq!(get_image_name(&Branch::Stable), "thewillard/arsa-test:stable");
    assert_eq!(get_image_name(&Branch::Experimental), "thewillard/arsa-test:experimental");
    assert_ne!(get_image_name(&Branch::Stable), get_image_name(&Branch::Experimental));
}

#[test]
fn images_for_tags() {
    assert_eq!(image_name_for_tag(""), None);
    assert_eq!(image_name_for_tag("stable"), Some("thewillard/arsa-test:stable".to_string()));
}

#[test]
fn scenario_lister_names() {
    assert_eq!(
        scenario_lister_name(&Branch::Experimental, 1),
        "list-scenarios-experimental-00000000-0000-0000-0000-000000000001"
    );
}
