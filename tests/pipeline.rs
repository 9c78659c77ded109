use article_server::pipeline::{
    file_error, pipeline_error, Config, STATUS_INTERNAL_SERVER_ERROR, STATUS_REQUEST_TIMEOUT,
};

#[test]
fn standard_config() {
    let cfg = Config::new();
    assert_eq!(cfg.port, 80);
    assert_eq!(cfg.timeout_seconds, 10);
    assert_eq!(cfg.static_root, "./web_src");
    assert_eq!(cfg.index_file(), "./web_src/index.html");
    assert_eq!(cfg.suggestion_file(), "./web_src/suggestion.html");
}

#[test]
fn file_paths_follow_the_root() {
    let cfg = Config { port: 8080, timeout_seconds: 3, static_root: String::from("/srv/www") };
    assert_eq!(cfg.index_file(), "/srv/www/index.html");
    assert_eq!(cfg.suggestion_file(), "/srv/www/suggestion.html");
}

#[test]
fn timeout_is_request_timeout() {
    let r = pipeline_error(true, "request timed out");
    match r {
        Ok(status) => {
            assert_eq!(status, 408);
            assert_eq!(status, STATUS_REQUEST_TIMEOUT);
        }
        Err(_) => panic!("a timeout must give 408"),
    }
}

#[test]
fn other_failure_is_internal_error() {
    match pipeline_error(false, "broken pipe") {
        Ok(_) => panic!("only a timeout gives 408"),
        Err(reply) => {
            assert_eq!(reply.status, 500);
            assert_eq!(reply.status, STATUS_INTERNAL_SERVER_ERROR);
            assert_eq!(reply.body, "Unhandled internal error: broken pipe");
        }
    }
}

#[test]
fn file_failure_is_internal_error() {
    let reply = file_error("permission denied");
    assert_eq!(reply.status, 500);
    assert_eq!(reply.body, "Unhandled internal error:permission denied");
    let empty = file_error("");
    assert_eq!(empty.body, "Unhandled internal error:");
}
