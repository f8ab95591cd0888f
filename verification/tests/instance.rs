use vmcontrol::instance::{
    filter_instances, get_instance, instance_state_name, retrieve_from_listing, InstanceInfo,
    Reservation,
};
use vmcontrol::vm::VmError;

fn info(instance_id: &str) -> InstanceInfo {
    InstanceInfo {
        instance_id: Some(instance_id.to_string()),
        image_id: Some("ami-07efac79022b86107".to_string()),
        instance_type: Some("t2.micro".to_string()),
        state_name: Some("running".to_string()),
        public_ip: Some("198.51.100.7".to_string()),
    }
}

fn listing(groups: Vec<Vec<InstanceInfo>>) -> Vec<Reservation> {
    groups
        .into_iter()
        .map(|instances| Reservation {
            instances: Some(instances),
        })
        .collect()
}

#[test]
fn retrieve_zero_matches_returns_empty() {
    let reservations = listing(vec![vec![info("i-aaa")], vec![info("i-bbb")]]);
    let result = retrieve_from_listing(&reservations, "i-ccc");
    assert!(matches!(result, Ok(None)));
}

#[test]
fn retrieve_unique_match_binds_the_identifier() {
    let reservations = listing(vec![vec![info("i-aaa")], vec![info("i-bbb")]]);
    let handle = retrieve_from_listing(&reservations, "i-bbb").unwrap().unwrap();
    assert_eq!(handle.instance_id, "i-bbb");
    assert_eq!(handle.image_id, "ami-07efac79022b86107");
    assert_eq!(handle.instance_type, "t2.micro");
}

#[test]
fn retrieve_ambiguous_match_aborts() {
    let reservations = listing(vec![vec![info("i-aaa")], vec![info("i-aaa")]]);
    let result = retrieve_from_listing(&reservations, "i-aaa");
    assert!(matches!(result, Err(VmError::AmbiguousMatch)));
}

#[test]
fn retrieve_without_image_metadata_returns_empty() {
    let mut instance = info("i-aaa");
    instance.image_id = None;
    let reservations = listing(vec![vec![instance]]);
    let result = retrieve_from_listing(&reservations, "i-aaa");
    assert!(matches!(result, Ok(None)));
}

#[test]
fn filter_flattens_across_reservations() {
    let mut twin = info("i-aaa");
    twin.state_name = Some("stopped".to_string());
    let reservations = listing(vec![vec![info("i-aaa"), info("i-bbb")], vec![twin]]);
    let matches = filter_instances(&reservations, "i-aaa").unwrap();
    assert_eq!(matches.len(), 2);
    assert_eq!(matches[0].state_name.as_deref(), Some("running"));
    assert_eq!(matches[1].state_name.as_deref(), Some("stopped"));
}

#[test]
fn filter_on_unlisted_reservation_finds_nothing() {
    let reservations = vec![
        Reservation {
            instances: Some(vec![info("i-aaa")]),
        },
        Reservation { instances: None },
    ];
    assert!(filter_instances(&reservations, "i-aaa").is_none());
    assert!(matches!(get_instance(&reservations, "i-aaa"), Ok(None)));
}

#[test]
fn get_instance_resolves_a_unique_match() {
    let reservations = listing(vec![vec![info("i-aaa"), info("i-bbb")]]);
    let instance = get_instance(&reservations, "i-bbb").unwrap().unwrap();
    assert_eq!(instance.instance_id.as_deref(), Some("i-bbb"));
}

#[test]
fn state_name_reports_the_listed_status() {
    let instance = info("i-aaa");
    assert_eq!(instance_state_name(&instance).unwrap(), "running");
}

#[test]
fn missing_state_name_is_an_error() {
    let mut instance = info("i-aaa");
    instance.state_name = None;
    assert!(matches!(
        instance_state_name(&instance),
        Err(VmError::MissingStatus)
    ));
}
