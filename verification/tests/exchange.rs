use batch_submit::{
    polled_status, submission_link, submit_batches, wait_for_batch, BatchStatus,
    InvalidTransaction, MediaType, Method, Reply, Request, StatusResponse, SubmitError,
    SERVICE_UNAVAILABLE,
};

fn payload() -> Vec<u8> {
    vec![0x0a, 0x05, 0x06, 0x07, 0x08]
}

fn server_url() -> String {
    "http://127.0.0.1:1234".to_string()
}

fn answered(status: u16, body: &str) -> Reply {
    Reply::Answered {
        status,
        body: body.as_bytes().to_vec(),
    }
}

#[test]
// Asserts that URLs with a scheme other that http return an error
fn test_cli_submit_batches_scheme() {
    assert!(submit_batches("https://test.com", payload()).is_err());
    assert!(submit_batches("file://test", payload()).is_err());
}

#[test]
// Asserts that submit_batches() returns data as expected
fn test_cli_submit_batches() {
    let url = server_url();
    let request = submit_batches(&url, payload()).unwrap();
    assert_eq!(request.method, Method::Post);
    assert_eq!(request.url, format!("{}{}", url, "/batches"));
    let reply = answered(200, "{\"link\":\"test.com/success\"}");
    let expected = "test.com/success".to_string();
    let result = submission_link(reply);

    assert_eq!(result.unwrap(), expected);
}

#[test]
// Asserts that URLs with a scheme other that http return an error
fn test_cli_wait_for_batches_scheme() {
    assert!(submit_batches("https://test.com", payload()).is_err());
    assert!(submit_batches("file://test", payload()).is_err());
}

#[test]
// Asserts that wait_for_batch() returns data as expected
fn test_cli_wait_for_batch() {
    let url = server_url();
    let request = wait_for_batch(&format!("{}/test?foo=bar", &url), 30).unwrap();
    assert_eq!(request.method, Method::Get);
    assert_eq!(request.url, format!("{}{}", url, "/test?foo=bar&wait=30"));
    let reply = answered(200, "{\"data\":[], \"link\":\"test.com/success\"}");
    let expected = StatusResponse {
        data: Vec::new(),
        link: "test.com/success".to_string(),
    };
    let result = polled_status(reply);

    assert_eq!(result.unwrap(), expected);
}

#[test]
fn empty_status_response_is_finished() {
    let reply = answered(200, "{\"data\":[], \"link\":\"test.com/success\"}");
    let response = polled_status(reply).unwrap();
    assert!(response.data.is_empty());
    assert_eq!(response.link, "test.com/success");
    assert!(response.is_finished());
}

#[test]
fn wait_for_batch_refuses_other_schemes() {
    assert_eq!(
        wait_for_batch("https://test.com/status?id=1", 30),
        Err(SubmitError::UnsupportedScheme {
            scheme: "https".to_string(),
            url: "https://test.com/status?id=1".to_string(),
        })
    );
    assert_eq!(
        wait_for_batch("file://test?id=1", 30),
        Err(SubmitError::UnsupportedScheme {
            scheme: "file".to_string(),
            url: "file://test?id=1".to_string(),
        })
    );
}

#[test]
fn submit_batches_names_the_refused_scheme() {
    assert_eq!(
        submit_batches("https://test.com", payload()),
        Err(SubmitError::UnsupportedScheme {
            scheme: "https".to_string(),
            url: "https://test.com".to_string(),
        })
    );
    assert_eq!(
        submit_batches("file://test", payload()),
        Err(SubmitError::UnsupportedScheme {
            scheme: "file".to_string(),
            url: "file://test".to_string(),
        })
    );
    assert_eq!(
        submit_batches("HTTP://test.com", payload()),
        Err(SubmitError::UnsupportedScheme {
            scheme: "HTTP".to_string(),
            url: "HTTP://test.com".to_string(),
        })
    );
}

#[test]
fn url_without_scheme_is_refused() {
    assert_eq!(
        submit_batches("/ledger", payload()),
        Err(SubmitError::MissingScheme {
            url: "/ledger".to_string(),
        })
    );
    assert_eq!(
        submit_batches("", payload()),
        Err(SubmitError::MissingScheme { url: String::new() })
    );
    assert_eq!(
        wait_for_batch("/batch_statuses?id=abc", 5),
        Err(SubmitError::MissingScheme {
            url: "/batch_statuses?id=abc".to_string(),
        })
    );
}

#[test]
fn unreadable_url_is_refused_with_the_reason() {
    assert_eq!(
        submit_batches("test.com", payload()),
        Err(SubmitError::InvalidUrl {
            reason: "invalid character in Uri authority".to_string(),
            url: "test.com".to_string(),
        })
    );
    assert_eq!(
        submit_batches("http://", payload()),
        Err(SubmitError::InvalidUrl {
            reason: "absolute Uri missing authority segment".to_string(),
            url: "http://".to_string(),
        })
    );
    assert_eq!(
        wait_for_batch("", 30),
        Err(SubmitError::InvalidUrl {
            reason: "invalid character in Uri authority".to_string(),
            url: String::new(),
        })
    );
}

#[test]
fn submit_batches_plans_one_post_of_the_payload() {
    let request = submit_batches("http://localhost:8080", payload()).unwrap();
    assert_eq!(
        request,
        Request {
            method: Method::Post,
            url: "http://localhost:8080/batches".to_string(),
            content_type: Some(MediaType::OctetStream),
            content_length: Some(5),
            body: payload(),
        }
    );
}

#[test]
fn submit_batches_accepts_an_empty_payload() {
    let request = submit_batches("http://localhost:8080", Vec::new()).unwrap();
    assert_eq!(request.content_length, Some(0));
    assert!(request.body.is_empty());
}

#[test]
fn wait_for_batch_plans_one_get() {
    let request = wait_for_batch("http://localhost:8080/batch_statuses?id=abc", 30).unwrap();
    assert_eq!(
        request,
        Request {
            method: Method::Get,
            url: "http://localhost:8080/batch_statuses?id=abc&wait=30".to_string(),
            content_type: None,
            content_length: None,
            body: Vec::new(),
        }
    );
}

#[test]
fn wait_starts_the_query_where_there_is_none() {
    let request = wait_for_batch("http://localhost:8080/batch_statuses", 30).unwrap();
    assert_eq!(request.url, "http://localhost:8080/batch_statuses?wait=30");
}

#[test]
fn wait_is_written_in_decimal() {
    let request = wait_for_batch("http://h/s?id=1", 0).unwrap();
    assert_eq!(request.url, "http://h/s?id=1&wait=0");
    let request = wait_for_batch("http://h/s?id=1", u64::MAX).unwrap();
    assert_eq!(request.url, "http://h/s?id=1&wait=18446744073709551615");
}

#[test]
fn submission_link_reads_the_body_whatever_the_status() {
    let reply = answered(202, "{\"link\": \"http://h/batch_statuses?id=abc\"}");
    assert_eq!(
        submission_link(reply),
        Ok("http://h/batch_statuses?id=abc".to_string())
    );
    let reply = answered(SERVICE_UNAVAILABLE, "{\"link\": \"x\"}");
    assert_eq!(submission_link(reply), Ok("x".to_string()));
}

#[test]
fn submission_link_reports_a_malformed_body() {
    assert_eq!(
        submission_link(answered(200, "not json")),
        Err(SubmitError::ProtocolError)
    );
    assert_eq!(
        submission_link(answered(200, "{\"data\": []}")),
        Err(SubmitError::ProtocolError)
    );
    assert_eq!(
        submission_link(answered(200, "{\"link\": 5}")),
        Err(SubmitError::ProtocolError)
    );
    assert_eq!(
        submission_link(answered(200, "")),
        Err(SubmitError::ProtocolError)
    );
}

#[test]
fn transport_failure_is_handed_on() {
    let failed = Reply::Failed {
        message: "connection refused".to_string(),
    };
    assert_eq!(
        submission_link(failed),
        Err(SubmitError::TransportFailure {
            message: "connection refused".to_string(),
        })
    );
    let failed = Reply::Failed {
        message: "connection reset".to_string(),
    };
    assert_eq!(
        polled_status(failed),
        Err(SubmitError::TransportFailure {
            message: "connection reset".to_string(),
        })
    );
}

#[test]
fn service_unavailable_is_an_error_of_its_own() {
    assert_eq!(SERVICE_UNAVAILABLE, 503);
    let reply = answered(503, "{\"data\":[], \"link\":\"test.com/success\"}");
    assert_eq!(polled_status(reply), Err(SubmitError::ServiceUnavailable));
    let reply = answered(503, "");
    assert_eq!(polled_status(reply), Err(SubmitError::ServiceUnavailable));
}

#[test]
fn polled_status_reports_a_malformed_body() {
    assert_eq!(
        polled_status(answered(200, "{\"link\":\"test.com/success\"}")),
        Err(SubmitError::ProtocolError)
    );
    assert_eq!(
        polled_status(answered(404, "Not Found")),
        Err(SubmitError::ProtocolError)
    );
    assert_eq!(
        polled_status(answered(
            200,
            "{\"data\":[{\"id\":\"a\",\"status\":\"PENDING\"}], \"link\":\"l\"}"
        )),
        Err(SubmitError::ProtocolError)
    );
}

#[test]
fn polled_status_reads_every_batch_in_order() {
    let body = "{\"data\": [\
        {\"id\": \"b1\", \"status\": \"COMMITTED\", \"invalid_transactions\": []},\
        {\"id\": \"b2\", \"status\": \"INVALID\", \"invalid_transactions\": [\
            {\"id\": \"t1\", \"message\": \"bad nonce\"},\
            {\"id\": \"t2\", \"message\": \"bad signer\", \"extended_data\": \"AA==\"}\
        ]}\
    ], \"link\": \"http://h/batch_statuses?id=b1,b2\"}";
    let expected = StatusResponse {
        data: vec![
            BatchStatus {
                id: "b1".to_string(),
                status: "COMMITTED".to_string(),
                invalid_transactions: Vec::new(),
            },
            BatchStatus {
                id: "b2".to_string(),
                status: "INVALID".to_string(),
                invalid_transactions: vec![
                    InvalidTransaction {
                        id: "t1".to_string(),
                        message: "bad nonce".to_string(),
                    },
                    InvalidTransaction {
                        id: "t2".to_string(),
                        message: "bad signer".to_string(),
                    },
                ],
            },
        ],
        link: "http://h/batch_statuses?id=b1,b2".to_string(),
    };
    let response = polled_status(answered(200, body)).unwrap();
    assert_eq!(response, expected);
    assert!(response.is_finished());
}

#[test]
fn polling_goes_on_until_the_outcome_has_settled() {
    let link = "http://h/batch_statuses?id=b1";
    let bodies = [
        "{\"data\": [{\"id\": \"b1\", \"status\": \"PENDING\", \"invalid_transactions\": []}], \
          \"link\": \"http://h/batch_statuses?id=b1\"}",
        "{\"data\": [{\"id\": \"b1\", \"status\": \"COMMITTED\", \"invalid_transactions\": []}], \
          \"link\": \"http://h/batch_statuses?id=b1\"}",
    ];
    let mut rounds = 0;
    for body in bodies {
        let request = wait_for_batch(link, 30).unwrap();
        assert_eq!(request.url, "http://h/batch_statuses?id=b1&wait=30");
        let response = polled_status(answered(200, body)).unwrap();
        rounds += 1;
        if response.is_finished() {
            break;
        }
    }
    assert_eq!(rounds, 2);
}
