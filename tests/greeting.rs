use simulation::get_placeholder_string;

#[test]
fn it_works() {
    assert_eq!(get_placeholder_string(), "Hello from the simulation crate!");
}
