use medic::combine::aggregate;
use medic::status::{status_from_label, StatusColor};
use medic::tree::ServiceStatus;

fn leaf(name: &str, color: StatusColor) -> ServiceStatus {
    ServiceStatus::new(name.to_string(), color, None, None)
}

#[test]
fn all_green_is_green() {
    let children = vec![
        leaf("a", StatusColor::Green),
        leaf("b", StatusColor::Green),
        leaf("c", StatusColor::Green),
    ];
    assert_eq!(aggregate(&children), StatusColor::Green);
}

#[test]
fn single_red_among_greens_is_red() {
    let children = vec![
        leaf("a", StatusColor::Green),
        leaf("b", StatusColor::Green),
        leaf("c", StatusColor::Red),
    ];
    assert_eq!(aggregate(&children), StatusColor::Red);
}

#[test]
fn orange_without_red_is_orange() {
    let children = vec![leaf("a", StatusColor::Green), leaf("b", StatusColor::Orange)];
    assert_eq!(aggregate(&children), StatusColor::Orange);
}

#[test]
fn orange_with_red_is_red() {
    let children = vec![leaf("a", StatusColor::Orange), leaf("b", StatusColor::Red)];
    assert_eq!(aggregate(&children), StatusColor::Red);
}

#[test]
fn single_orange_is_orange() {
    let children = vec![leaf("a", StatusColor::Orange)];
    assert_eq!(aggregate(&children), StatusColor::Orange);
}

#[test]
fn empty_children_default_to_green() {
    let children: Vec<ServiceStatus> = Vec::new();
    assert_eq!(aggregate(&children), StatusColor::Green);
}

#[test]
fn labels_round_trip() {
    assert_eq!(StatusColor::Red.label(), "RED");
    assert_eq!(StatusColor::Orange.label(), "ORANGE");
    assert_eq!(StatusColor::Green.label(), "GREEN");
    assert_eq!(status_from_label("GREEN"), StatusColor::Green);
    assert_eq!(status_from_label("ORANGE"), StatusColor::Orange);
    assert_eq!(status_from_label("RED"), StatusColor::Red);
}

#[test]
fn unknown_label_reads_as_red() {
    assert_eq!(status_from_label("BLUE"), StatusColor::Red);
    assert_eq!(status_from_label(""), StatusColor::Red);
    assert_eq!(status_from_label("green"), StatusColor::Red);
}

#[test]
fn new_without_subservices_has_none() {
    let s = ServiceStatus::new("db".to_string(), StatusColor::Green, None, None);
    assert_eq!(s.name, "db");
    assert_eq!(s.status, StatusColor::Green);
    assert!(s.description.is_none());
    assert!(s.subservices.is_empty());
}
