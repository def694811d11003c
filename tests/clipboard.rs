use pathclip::clipboard::Backend;
use pathclip::clipboard::Clipboard;

fn strings(v: &[&str]) -> Vec<String> {
    v.iter().map(|s| s.to_string()).collect()
}

#[test]
fn xsel_is_preferred() {
    let c = Clipboard::new(true, true).unwrap();
    assert_eq!(c.cmd(), "xsel");
    assert_eq!(c.args(), &strings(&["-b", "-i"]));
}

#[test]
fn xclip_when_xsel_is_missing() {
    let c = Clipboard::new(false, true).unwrap();
    assert_eq!(c.cmd(), "xclip");
    assert_eq!(c.args(), &strings(&["-selection", "c"]));
}

#[test]
fn no_backend_gives_none() {
    assert!(Clipboard::new(false, false).is_none());
}

#[test]
fn backend_names_and_args() {
    assert_eq!(Backend::Xsel.program(), "xsel");
    assert_eq!(Backend::Xclip.program(), "xclip");
    assert_eq!(Backend::Xsel.args(), strings(&["-b", "-i"]));
    assert_eq!(Backend::Xclip.args(), strings(&["-selection", "c"]));
    assert_eq!(Clipboard::from_backend(Backend::Xclip).cmd(), "xclip");
}

#[test]
fn run_pipes_echo_into_backend() {
    let c = Clipboard::new(true, false).unwrap();
    let p = c.run("/home/user".to_string());
    assert_eq!(p.producer.program, "echo");
    assert_eq!(p.producer.args, strings(&["-n", "/home/user"]));
    assert_eq!(p.consumer.program, "xsel");
    assert_eq!(p.consumer.args, strings(&["-b", "-i"]));
}
