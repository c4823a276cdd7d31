use groundstation_cli::client::{
    reply_outcome, ApiClient, ApiResponse, ClientConfig, JobWindow, TleData,
};
use groundstation_cli::datetime::parse_user_datetime;
use groundstation_cli::error::CliError;

#[test]
fn element_set_fields_are_trimmed() {
    let tle = TleData::from_input("  ISS (ZARYA)  ", "\t1 25544U 98067A \n", " 2 25544  51.6355");
    assert_eq!(tle.tle0, "ISS (ZARYA)");
    assert_eq!(tle.tle1, "1 25544U 98067A");
    assert_eq!(tle.tle2, "2 25544  51.6355");
}

#[test]
fn unset_variables_give_defaults() {
    let c = ClientConfig::from_env_values(None, None);
    assert_eq!(c.base_url, "http://localhost:3000");
    assert_eq!(c.timeout_seconds, 30);
}

#[test]
fn variables_are_read() {
    let c = ClientConfig::from_env_values(
        Some("https://gs.example.org".to_string()),
        Some("45".to_string()),
    );
    assert_eq!(c.base_url, "https://gs.example.org");
    assert_eq!(c.timeout_seconds, 45);
    assert_eq!(ClientConfig::from_env_values(None, Some("+7".to_string())).timeout_seconds, 7);
}

#[test]
fn unparsable_timeout_falls_back() {
    for t in ["abc", "", "-5", "1.5", " 10", "99999999999999999999999"] {
        assert_eq!(ClientConfig::from_env_values(None, Some(t.to_string())).timeout_seconds, 30);
    }
}

#[test]
fn client_builds_without_variables() {
    let client = ApiClient::new(None, None).unwrap();
    assert_eq!(client.base_url(), "http://localhost:3000");
    assert_eq!(client.jobs_url(), "http://localhost:3000/jobs");
    let client = ApiClient::new(Some("http://gs:8080".to_string()), Some("x".to_string())).unwrap();
    assert_eq!(client.jobs_url(), "http://gs:8080/jobs");
}

#[test]
fn server_error_is_an_http_error() {
    let body = Ok(ApiResponse { status: "ok".to_string(), message: None });
    let r = reply_outcome(500, "HTTP status server error (500)".to_string(), body);
    assert_eq!(r, Err(CliError::HttpError("HTTP status server error (500)".to_string())));
    let r = reply_outcome(404, "not found".to_string(), Err("no body".to_string()));
    assert_eq!(r, Err(CliError::HttpError("not found".to_string())));
}

#[test]
fn accepted_reply() {
    let reply = ApiResponse { status: "ok".to_string(), message: None };
    let r = reply_outcome(200, "200 OK".to_string(), Ok(reply.clone())).unwrap();
    assert_eq!(r, reply);
    let line = r.success_line();
    assert_eq!(line, "Job submitted successfully: ok");
    assert!(line.contains("ok"));
}

#[test]
fn unreadable_reply_is_an_http_error() {
    let r = reply_outcome(201, "201 Created".to_string(), Err("expected value".to_string()));
    assert_eq!(r, Err(CliError::HttpError("expected value".to_string())));
}

#[test]
fn job_window_is_assembled() {
    let start = parse_user_datetime("2025-10-02", "12:00").unwrap();
    let end = parse_user_datetime("2025-10-02", "12:15").unwrap();
    let tle = TleData::from_input("ISS (ZARYA)", "1 25544U", "2 25544");
    let job = JobWindow::new(start, end, tle.clone());
    assert_eq!(job.start, start);
    assert_eq!(job.end, end);
    assert_eq!(job.tle, tle);
    let backwards = JobWindow::new(end, start, tle);
    assert_eq!(backwards.start, end);
}
