use book_catalog::books::Book;
use book_catalog::create::{CreationController, FormField, SubmitState};
use book_catalog::search::{SearchController, SearchViewState, DEBOUNCE_MS};

fn sample_book(id: i32, title: &str) -> Book {
    Book {
        id,
        title: title.to_string(),
        author: "A".to_string(),
        publisher: "P".to_string(),
        price: 100,
        isbn: "1234567890".to_string(),
    }
}

#[test]
fn new_search_controller_issues_an_initial_lookup() {
    let (controller, request) = SearchController::new("Rust".to_string());
    assert_eq!(request.seq_no, 1);
    assert_eq!(request.query, "Rust");
    assert_eq!(controller.raw_query, "Rust");
    assert!(matches!(controller.state, SearchViewState::Loading));
}

#[test]
fn input_commits_only_after_the_debounce_interval() {
    let (mut c, _) = SearchController::new(String::new());
    c.input("Ru".to_string(), 0);
    assert_eq!(c.raw_query, "Ru");
    assert!(c.poll(DEBOUNCE_MS - 1).is_none());
    let request = c.poll(DEBOUNCE_MS).expect("the idle interval has passed");
    assert_eq!(request.seq_no, 2);
    assert_eq!(request.query, "Ru");
    assert!(matches!(c.state, SearchViewState::Loading));
    // Committed input does not fire twice.
    assert!(c.poll(DEBOUNCE_MS + 1).is_none());
}

#[test]
fn each_keystroke_restarts_the_debounce_window() {
    let (mut c, _) = SearchController::new(String::new());
    c.input("R".to_string(), 0);
    c.input("Ru".to_string(), 500);
    // 0 + DEBOUNCE_MS has passed, but the newest input arrived at 500 and
    // is still waiting; nothing may fire.
    assert!(c.poll(DEBOUNCE_MS).is_none());
    let request = c.poll(500 + DEBOUNCE_MS).expect("the idle interval has passed");
    assert_eq!(request.query, "Ru");
}

#[test]
fn stale_lookup_cannot_overwrite_a_newer_result() {
    let (mut c, _) = SearchController::new(String::new());
    c.input("A".to_string(), 0);
    let req_a = c.poll(DEBOUNCE_MS).unwrap();
    c.input("B".to_string(), 2000);
    let req_b = c.poll(2000 + DEBOUNCE_MS).unwrap();
    assert_ne!(req_a.seq_no, req_b.seq_no);

    // B's outcome arrives first, then A's stale outcome: B's result stands.
    c.resolve(req_b.seq_no, Ok(vec![sample_book(2, "B book")]));
    c.resolve(req_a.seq_no, Ok(vec![sample_book(1, "A book")]));
    match &c.state {
        SearchViewState::Success(books) => {
            assert_eq!(books.len(), 1);
            assert_eq!(books[0].title, "B book");
        }
        _ => panic!("the latest lookup's outcome must be kept"),
    }
}

#[test]
fn stale_lookup_arriving_before_the_newer_one_is_discarded() {
    let (mut c, _) = SearchController::new(String::new());
    c.input("A".to_string(), 0);
    let req_a = c.poll(DEBOUNCE_MS).unwrap();
    c.input("B".to_string(), 2000);
    let req_b = c.poll(2000 + DEBOUNCE_MS).unwrap();

    // A's stale outcome arrives while B is in flight: the view keeps loading.
    c.resolve(req_a.seq_no, Ok(vec![sample_book(1, "A book")]));
    assert!(matches!(c.state, SearchViewState::Loading));
    c.resolve(req_b.seq_no, Ok(vec![sample_book(2, "B book")]));
    match &c.state {
        SearchViewState::Success(books) => assert_eq!(books[0].title, "B book"),
        _ => panic!("the latest lookup's outcome must be kept"),
    }
}

#[test]
fn failed_lookup_shows_a_failure_state() {
    let (mut c, request) = SearchController::new(String::new());
    c.resolve(request.seq_no, Err("connection lost".to_string()));
    match &c.state {
        SearchViewState::Failure(m) => assert_eq!(m.as_str(), "connection lost"),
        _ => panic!("a failed lookup must surface its message"),
    }
}

#[test]
fn submitting_an_invalid_form_surfaces_errors_and_stays_idle() {
    let mut c = CreationController::new();
    c.edit(FormField::Title, "T".to_string());
    c.edit(FormField::Price, "0".to_string());
    let handed_out = c.submit();
    assert!(handed_out.is_none());
    assert!(matches!(c.state, SubmitState::Idle));
    assert!(c.errors.title.is_none());
    assert_eq!(c.errors.author.as_deref(), Some("required"));
    assert_eq!(c.errors.publisher.as_deref(), Some("required"));
    assert_eq!(c.errors.price.as_deref(), Some("must be greater than 0"));
    assert_eq!(c.errors.isbn.as_deref(), Some("required"));
}

#[test]
fn editing_a_field_clears_that_fields_error_only() {
    let mut c = CreationController::new();
    c.submit();
    assert!(c.errors.title.is_some());
    assert!(c.errors.price.is_some());
    c.edit(FormField::Title, "T".to_string());
    assert!(c.errors.title.is_none());
    // The other errors stand untouched, without re-validation.
    assert!(c.errors.author.is_some());
    assert!(c.errors.publisher.is_some());
    assert!(c.errors.price.is_some());
    assert!(c.errors.isbn.is_some());
}

fn filled_controller() -> CreationController {
    let mut c = CreationController::new();
    c.edit(FormField::Title, " A Title ".to_string());
    c.edit(FormField::Author, "An Author".to_string());
    c.edit(FormField::Publisher, "A Publisher".to_string());
    c.edit(FormField::Price, " 1200 ".to_string());
    c.edit(FormField::Isbn, "978-4-798158228".to_string());
    c
}

#[test]
fn submitting_a_valid_form_hands_it_out_and_goes_to_submitting() {
    let mut c = filled_controller();
    let form = c.submit().expect("a valid form must be handed out");
    assert_eq!(form.title, " A Title ");
    assert_eq!(form.author, "An Author");
    assert_eq!(form.publisher, "A Publisher");
    assert_eq!(form.price, 1200);
    assert_eq!(form.isbn, "978-4-798158228");
    assert!(matches!(c.state, SubmitState::Submitting));
    assert!(!c.errors.has_errors());
}

#[test]
fn submitting_while_in_flight_is_a_no_op() {
    let mut c = filled_controller();
    assert!(c.submit().is_some());
    assert!(matches!(c.state, SubmitState::Submitting));
    assert!(c.submit().is_none());
    assert!(matches!(c.state, SubmitState::Submitting));
}

#[test]
fn submitting_after_success_is_a_no_op() {
    let mut c = filled_controller();
    c.submit();
    c.resolve(Ok(sample_book(1, "A Title")));
    assert!(matches!(c.state, SubmitState::Success(_)));
    assert!(c.submit().is_none());
    match &c.state {
        SubmitState::Success(b) => assert_eq!(b.id, 1),
        _ => panic!("a settled attempt must stay settled"),
    }
}

#[test]
fn successful_creation_keeps_the_created_book() {
    let mut c = filled_controller();
    c.submit();
    c.resolve(Ok(sample_book(42, "A Title")));
    match &c.state {
        SubmitState::Success(b) => {
            assert_eq!(b.id, 42);
            assert_eq!(b.title, "A Title");
        }
        _ => panic!("a successful attempt must carry the created book"),
    }
}

#[test]
fn failed_creation_carries_the_persistence_detail() {
    let mut c = filled_controller();
    c.submit();
    c.resolve(Err("disk full".to_string()));
    match &c.state {
        SubmitState::Error(m) => assert_eq!(m.as_str(), "could not save the book: disk full"),
        _ => panic!("a failed attempt must surface its message"),
    }
}

#[test]
fn a_user_action_clears_a_failed_attempt_back_to_idle() {
    let mut c = filled_controller();
    c.submit();
    c.resolve(Err("disk full".to_string()));
    assert!(matches!(c.state, SubmitState::Error(_)));
    c.retry();
    assert!(matches!(c.state, SubmitState::Idle));

    let mut c = filled_controller();
    c.submit();
    c.resolve(Err("disk full".to_string()));
    c.edit(FormField::Title, "Another Title".to_string());
    assert!(matches!(c.state, SubmitState::Idle));
}

#[test]
fn a_resubmission_after_failure_can_succeed() {
    let mut c = filled_controller();
    c.submit();
    c.resolve(Err("disk full".to_string()));
    c.retry();
    let form = c.submit().expect("the form is still valid");
    assert_eq!(form.price, 1200);
    assert!(matches!(c.state, SubmitState::Submitting));
}
