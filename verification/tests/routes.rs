use api_lib::routes::{hello_world, ping, version};

#[test]
fn hello_world_greets() {
    assert_eq!(hello_world(), "Hello World!");
}

#[test]
fn ping_answers_pong() {
    assert_eq!(ping(), "PONG");
}

#[test]
fn version_passes_the_database_version_on() {
    let answer = version(Ok(String::from("PostgreSQL 15.3 on x86_64-pc-linux-gnu")));
    assert_eq!(answer, "PostgreSQL 15.3 on x86_64-pc-linux-gnu");
    assert_eq!(version(Ok(String::new())), "");
}

#[test]
fn version_reports_a_failure() {
    let answer = version(Err(String::from("PoolTimedOut")));
    assert_eq!(answer, "Error: PoolTimedOut");
    assert_eq!(version(Err(String::new())), "Error: ");
}
