use cdock_inhibit::inhibit::inhibit_mode;
use cdock_inhibit::inhibit::inhibit_what;
use cdock_inhibit::inhibit::inhibit_who;
use cdock_inhibit::inhibit::inhibit_why;

#[test]
fn lock_request_parameters_are_fixed() {
    assert_eq!(inhibit_what(), "sleep:handle-lid-switch");
    assert_eq!(inhibit_who(), "cdock-inhibit");
    assert_eq!(inhibit_why(), "Docked via USB-C");
    assert_eq!(inhibit_mode(), "block");
}
