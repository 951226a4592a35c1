use svcman::descriptor::ServiceDescriptor;
use svcman::render::render;
use svcman::store::read_first_line;
use svcman::store::unit_path;

fn full_descriptor() -> ServiceDescriptor {
    ServiceDescriptor::new(
        String::from("api"),
        String::from("API server"),
        String::from("%h"),
        Some(8080),
        Some(String::from("npm install")),
        String::from("npm start"),
        Some(String::from("api.example.com")),
    )
    .unwrap()
}

fn bare_descriptor() -> ServiceDescriptor {
    ServiceDescriptor::new(
        String::from("worker"),
        String::from("background worker"),
        String::from("/srv/worker"),
        None,
        None,
        String::from("./run.sh"),
        None,
    )
    .unwrap()
}

#[test]
fn render_is_deterministic() {
    let d = full_descriptor();
    assert_eq!(render(&d), render(&d));
    let b = bare_descriptor();
    assert_eq!(render(&b), render(&b));
}

#[test]
fn render_full_layout() {
    let text = render(&full_descriptor());
    let expected = "#api.example.com\n\
                    [Unit]\n\
                    Description=API server\n\
                    \n\
                    [Service]\n\
                    WorkingDirectory=%h\n\
                    Environment=\"PORT=8080\"\n\
                    ExecStartPre=-npm install\n\
                    [Service]\n\
                    ExecStart=npm start\n\
                    Restart=on-failure\n\
                    \n\
                    [Install]\n\
                    WantedBy=default.target\n";
    assert_eq!(text, expected);
}

#[test]
fn render_without_options() {
    let text = render(&bare_descriptor());
    let expected = "[Unit]\n\
                    Description=background worker\n\
                    \n\
                    [Service]\n\
                    WorkingDirectory=/srv/worker\n\
                    [Service]\n\
                    ExecStart=./run.sh\n\
                    Restart=on-failure\n\
                    \n\
                    [Install]\n\
                    WantedBy=default.target\n";
    assert_eq!(text, expected);
    assert!(!text.contains("Environment"));
    assert!(!text.starts_with('#'));
}

#[test]
fn descriptor_rejects_domain_without_port() {
    let r = ServiceDescriptor::new(
        String::from("api"),
        String::from("API server"),
        String::from("%h"),
        None,
        None,
        String::from("npm start"),
        Some(String::from("api.example.com")),
    );
    assert!(r.is_none());
}

#[test]
fn descriptor_rejects_empty_name() {
    let r = ServiceDescriptor::new(
        String::new(),
        String::from("API server"),
        String::from("%h"),
        None,
        None,
        String::from("npm start"),
        None,
    );
    assert!(r.is_none());
}

#[test]
fn descriptor_getters() {
    let d = full_descriptor();
    assert_eq!(d.name().as_str(), "api");
    assert_eq!(d.description().as_str(), "API server");
    assert_eq!(d.directory().as_str(), "%h");
    assert_eq!(d.port(), Some(8080));
    assert_eq!(d.pre_start_command().as_deref(), Some("npm install"));
    assert_eq!(d.start_command().as_str(), "npm start");
    assert_eq!(d.registered_domain().as_deref(), Some("api.example.com"));
}

#[test]
fn round_trip_recovers_domain() {
    let text = render(&full_descriptor());
    assert_eq!(read_first_line(&text), Some(String::from("#api.example.com")));
}

#[test]
fn round_trip_without_domain() {
    let text = render(&bare_descriptor());
    assert_eq!(read_first_line(&text), None);
}

#[test]
fn first_line_of_plain_text() {
    assert_eq!(read_first_line("#example.com\nrest"), Some(String::from("#example.com")));
    assert_eq!(read_first_line("#example.com"), Some(String::from("#example.com")));
    assert_eq!(read_first_line("[Unit]\n"), None);
    assert_eq!(read_first_line(""), None);
}

#[test]
fn unit_path_joins_fixed_directory() {
    assert_eq!(
        unit_path("/home/op", "api"),
        "/home/op/.config/systemd/user/api.service"
    );
}
