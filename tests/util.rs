use erpc_rs::util::{fq_erpc, join_words, split_words, to_snake_case};

#[test]
fn test_snake_name() {
    let cases = vec![
        ("AsyncRequest", "async_request"),
        ("asyncRequest", "async_request"),
        ("async_request", "async_request"),
        ("createID", "create_id"),
        ("AsyncRClient", "async_r_client"),
        ("CreateIDForReq", "create_id_for_req"),
        ("Create_ID_For_Req", "create_id_for_req"),
        ("Create_ID_For__Req", "create_id_for_req"),
        ("ID", "id"),
        ("id", "id"),
    ];

    for (origin, exp) in cases {
        let res = to_snake_case(origin);
        assert_eq!(res, exp);
    }
}

#[test]
fn snake_case_of_empty_name_is_empty() {
    assert_eq!(to_snake_case(""), "");
}

#[test]
fn snake_case_lowers_capitals() {
    assert_eq!(to_snake_case("HELLO"), "hello");
    assert_eq!(to_snake_case("SayHello"), "say_hello");
}

#[test]
fn split_words_keeps_case() {
    assert_eq!(split_words("CreateIDForReq"), vec!["Create", "ID", "For", "Req"]);
    assert_eq!(split_words("__a"), vec!["a"]);
}

#[test]
fn join_words_puts_single_underscores_between() {
    let parts = vec!["a".to_string(), "bc".to_string(), "d".to_string()];
    assert_eq!(join_words(&parts), "a_bc_d");
    assert_eq!(join_words(&Vec::new()), "");
}

#[test]
fn fq_erpc_prefixes_the_prelude_path() {
    assert_eq!(fq_erpc("Channel"), "::erpc_rs::prelude::Channel");
}
