use tonio::io::{Interest, ScheduledIO, Source, Token};

#[test]
fn add_request_names_its_descriptor() {
    let req = ScheduledIO::Add(Token(7), Interest { readable: true, writable: false });
    assert_eq!(req.source(), Source::FD(7));
}

#[test]
fn update_request_names_its_descriptor() {
    let req = ScheduledIO::Upd(Token(2147483647), Interest { readable: true, writable: true });
    assert_eq!(req.source(), Source::FD(2147483647));
}

#[test]
fn descriptor_zero() {
    let req = ScheduledIO::Upd(Token(0), Interest { readable: false, writable: true });
    assert_eq!(req.source(), Source::FD(0));
}
