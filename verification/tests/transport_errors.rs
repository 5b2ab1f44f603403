use voice_input::transcription::openai::map_reqwest_error;
use voice_input::transcription::TranscriptionError;

fn request_error(url: &str) -> reqwest::Error {
    let client = reqwest::Client::new();
    let request = client.get(url).build().unwrap();
    let runtime = tokio::runtime::Builder::new_current_thread()
        .build()
        .unwrap();
    runtime.block_on(client.execute(request)).unwrap_err()
}

#[test]
fn network_errors_never_carry_the_url() {
    let err = request_error("ftp://sk-secret@example.com/v1");
    assert!(err.to_string().contains("example.com"));
    assert_eq!(
        map_reqwest_error(err),
        TranscriptionError::Network("builder error".to_owned())
    );
}

#[test]
fn errors_that_are_not_timeouts_are_network_errors() {
    let err = reqwest::Client::new().get("not a url").build().unwrap_err();
    assert!(!err.is_timeout());
    assert!(matches!(
        map_reqwest_error(err),
        TranscriptionError::Network(_)
    ));
}
