use arsa_backend::error::ArsaError;

fn parts(e: ArsaError) -> (u16, String) {
    let (code, body) = e.response_parts();
    (code, body.message)
}

#[test]
fn error_responses() {
    assert_eq!(parts(ArsaError::NotFound), (404, "404 Not Found".to_string()));
    assert_eq!(parts(ArsaError::BadRequest), (400, "Bad Request".to_string()));
    assert_eq!(parts(ArsaError::Unauthorized), (401, "401 Unauthorized".to_string()));
    assert_eq!(
        parts(ArsaError::UnknownError("detail".to_string())),
        (500, "500 Internal Server Error".to_string())
    );
    assert_eq!(parts(ArsaError::DatabaseError("db".to_string())), (500, "db".to_string()));
    assert_eq!(parts(ArsaError::SerdeError("serde".to_string())), (500, "serde".to_string()));
    assert_eq!(parts(ArsaError::BollardError("docker".to_string())), (500, "docker".to_string()));
    assert_eq!(parts(ArsaError::IOError("io".to_string())), (500, "io".to_string()));
    assert_eq!(parts(ArsaError::FSExtra("fs".to_string())), (500, "fs".to_string()));
    assert_eq!(
        parts(ArsaError::JsonRejection { status: 422, body: "bad json".to_string() }),
        (422, "bad json".to_string())
    );
}

#[test]
fn rejected_bodies_do_not_carry_the_error() {
    assert!(!ArsaError::JsonRejection { status: 400, body: "x".to_string() }.attaches_error());
    assert!(ArsaError::NotFound.attaches_error());
    assert!(ArsaError::BadRequest.attaches_error());
    assert!(ArsaError::UnknownError("u".to_string()).attaches_error());
    assert!(ArsaError::IOError("io".to_string()).attaches_error());
}
