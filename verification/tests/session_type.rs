use pitwall::session_type::SessionType;

#[test]
fn test_from_irsdk_practice() {
    assert_eq!(SessionType::from_irsdk("Practice"), SessionType::Practice);
}

#[test]
fn test_from_irsdk_race() {
    assert_eq!(SessionType::from_irsdk("Race"), SessionType::Race);
}

#[test]
fn test_from_irsdk_qualify() {
    assert_eq!(SessionType::from_irsdk("Qualify"), SessionType::Qualifying);
}

#[test]
fn test_from_irsdk_lone_qualify() {
    assert_eq!(
        SessionType::from_irsdk("Lone Qualify"),
        SessionType::Qualifying
    );
}

#[test]
fn test_from_irsdk_open_qualify() {
    assert_eq!(
        SessionType::from_irsdk("Open Qualify"),
        SessionType::Qualifying
    );
}

#[test]
fn test_from_irsdk_warmup() {
    assert_eq!(SessionType::from_irsdk("Warmup"), SessionType::Warmup);
}

#[test]
fn test_from_irsdk_testing() {
    assert_eq!(SessionType::from_irsdk("Testing"), SessionType::Testing);
}

#[test]
fn test_from_irsdk_unknown() {
    assert_eq!(
        SessionType::from_irsdk("UnknownType"),
        SessionType::Practice
    );
    assert_eq!(SessionType::from_irsdk(""), SessionType::Practice);
    assert_eq!(
        SessionType::from_irsdk("SomeOtherSessionType"),
        SessionType::Practice
    );
}

#[test]
fn test_display_label() {
    assert_eq!(SessionType::Practice.display_label(), "Practice");
    assert_eq!(SessionType::Qualifying.display_label(), "Qualifying");
    assert_eq!(SessionType::Race.display_label(), "Race");
    assert_eq!(SessionType::Warmup.display_label(), "Warmup");
    assert_eq!(SessionType::Testing.display_label(), "Testing");
}

#[test]
fn test_as_str() {
    assert_eq!(SessionType::Practice.as_str(), "practice");
    assert_eq!(SessionType::Qualifying.as_str(), "qualifying");
    assert_eq!(SessionType::Race.as_str(), "race");
    assert_eq!(SessionType::Warmup.as_str(), "warmup");
    assert_eq!(SessionType::Testing.as_str(), "testing");
}

#[test]
fn test_default() {
    let default_type: SessionType = Default::default();
    assert_eq!(default_type, SessionType::Practice);
}

#[test]
fn from_irsdk_is_case_sensitive() {
    assert_eq!(SessionType::from_irsdk("race"), SessionType::Practice);
    assert_eq!(SessionType::from_irsdk("Offline Testing"), SessionType::Practice);
}
