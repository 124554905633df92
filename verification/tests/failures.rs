use minimal::failure::{diagnostic, require_match};
use minimal::list::no_node_at_text;
use minimal::{Failure, OptionExt, ResultExt};

#[test]
fn a_present_value_is_handed_back() {
    let held: Option<u32> = Some(7);
    let r = held.custom_expect("no value".to_string());
    assert_eq!(r.unwrap(), 7);
}

#[test]
fn an_absent_value_fails_with_the_message() {
    let held: Option<u32> = None;
    let r = held.custom_expect("no value".to_string());
    assert_eq!(r.unwrap_err().message, "no value");
}

#[test]
fn a_finished_operation_hands_its_value_back() {
    let held: Result<u32, String> = Ok(7);
    let r = held.custom_expect("it failed".to_string());
    assert_eq!(r.unwrap(), 7);
}

#[test]
fn a_failed_operation_fails_with_the_message_not_the_cause() {
    let held: Result<u32, String> = Err("the cause".to_string());
    let r = held.custom_expect("it failed".to_string());
    assert_eq!(r.unwrap_err().message, "it failed");
}

#[test]
fn a_match_is_handed_back() {
    let outcome: Result<Option<u32>, String> = Ok(Some(3));
    let r = require_match(outcome, "rejected".to_string(), "unmatched".to_string());
    assert_eq!(r.unwrap(), 3);
}

#[test]
fn a_rejected_search_and_an_empty_one_fail_differently() {
    let rejected: Result<Option<u32>, String> = Err("syntax".to_string());
    let empty: Result<Option<u32>, String> = Ok(None);
    let first = require_match(rejected, "rejected".to_string(), "unmatched".to_string());
    let second = require_match(empty, "rejected".to_string(), "unmatched".to_string());
    assert_eq!(first.unwrap_err().message, "rejected");
    assert_eq!(second.unwrap_err().message, "unmatched");
}

#[test]
fn diagnostic_joins_prefix_and_value() {
    assert_eq!(diagnostic("No attribute found for : ", "href"), "No attribute found for : href");
    assert_eq!(diagnostic("", "x"), "x");
    assert_eq!(diagnostic("x", ""), "x");
}

#[test]
fn a_missing_id_is_named_in_the_failure() {
    let found: Option<u32> = None;
    let r = found.custom_expect(diagnostic("No Element found with id : ", "missing"));
    let failure: Failure = r.unwrap_err();
    assert_eq!(failure.message, "No Element found with id : missing");
    assert!(failure.message.contains("missing"));
}

#[test]
fn an_empty_value_is_a_value() {
    // A style property that is not set reads as the empty text, which is no
    // failure.
    let read: Result<String, u32> = Ok(String::new());
    let r = read.custom_expect("There's been a problem with get the property value : display".to_string());
    assert_eq!(r.unwrap(), "");
}

#[test]
fn the_position_is_named_in_the_failure() {
    assert_eq!(no_node_at_text(0), "There's not a Node in NodeList in position 0");
    assert_eq!(no_node_at_text(5), "There's not a Node in NodeList in position 5");
    assert_eq!(no_node_at_text(120), "There's not a Node in NodeList in position 120");
}

#[test]
fn an_empty_list_has_no_first_member() {
    let members: Vec<u32> = Vec::new();
    assert_eq!(members.len(), 0);
    let r = members.get(0).copied().custom_expect(no_node_at_text(0));
    assert_eq!(r.unwrap_err().message, "There's not a Node in NodeList in position 0");
}

#[test]
fn a_list_of_five_has_members_up_to_the_fifth() {
    let members: Vec<u32> = vec![10, 11, 12, 13, 14];
    let mut index: u32 = 0;
    while index < 5 {
        let r = members.get(index as usize).copied().custom_expect(no_node_at_text(index));
        assert_eq!(r.unwrap(), 10 + index);
        index += 1;
    }
    let r = members.get(5).copied().custom_expect(no_node_at_text(5));
    assert_eq!(r.unwrap_err().message, "There's not a Node in NodeList in position 5");
}

#[test]
fn a_failure_can_be_copied_and_shown() {
    let failure = Failure { message: "no window found".to_string() };
    let copy = failure.clone();
    assert_eq!(copy.message, failure.message);
    assert!(format!("{:?}", copy).contains("no window found"));
}

#[test]
fn a_write_that_the_host_made_is_no_failure() {
    let outcome: Result<bool, String> = Ok(true);
    assert!(minimal::failure::require_written(outcome, "not written".to_string()).is_ok());
}

#[test]
fn a_write_that_the_host_did_not_make_fails() {
    let outcome: Result<bool, String> = Ok(false);
    let r = minimal::failure::require_written(outcome, "not written".to_string());
    assert_eq!(r.unwrap_err().message, "not written");
}

#[test]
fn a_write_on_which_the_host_raised_fails() {
    let outcome: Result<bool, String> = Err("raised".to_string());
    let r = minimal::failure::require_written(outcome, "not written".to_string());
    assert_eq!(r.unwrap_err().message, "not written");
}
