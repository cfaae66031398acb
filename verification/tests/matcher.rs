use cdock_inhibit::device::DeviceDescriptor;
use cdock_inhibit::device::bytes_eq;
use cdock_inhibit::device::copy_bytes;
use cdock_inhibit::device::dock_product_id;
use cdock_inhibit::device::dock_vendor_id;
use cdock_inhibit::device::is_dock;

fn descriptor(vendor: Option<&[u8]>, product: Option<&[u8]>) -> DeviceDescriptor {
    DeviceDescriptor {
        vendor: vendor.map(|v| v.to_vec()),
        product: product.map(|p| p.to_vec()),
    }
}

#[test]
fn match_constants_are_the_dock_codes() {
    assert_eq!(dock_vendor_id(), b"413c".to_vec());
    assert_eq!(dock_product_id(), b"b06f".to_vec());
}

#[test]
fn exact_codes_match() {
    let d = descriptor(Some(b"413c"), Some(b"b06f"));
    assert!(is_dock(&d));
}

#[test]
fn differing_vendor_does_not_match() {
    let d = descriptor(Some(b"0000"), Some(b"b06f"));
    assert!(!is_dock(&d));
}

#[test]
fn differing_product_does_not_match() {
    let d = descriptor(Some(b"413c"), Some(b"0000"));
    assert!(!is_dock(&d));
}

#[test]
fn case_differing_code_does_not_match() {
    let d = descriptor(Some(b"413C"), Some(b"b06f"));
    assert!(!is_dock(&d));
}

#[test]
fn prefix_of_code_does_not_match() {
    let d = descriptor(Some(b"413"), Some(b"b06f"));
    assert!(!is_dock(&d));
}

#[test]
fn missing_vendor_does_not_match() {
    let d = descriptor(None, Some(b"b06f"));
    assert!(!is_dock(&d));
}

#[test]
fn missing_product_does_not_match() {
    let d = descriptor(Some(b"413c"), None);
    assert!(!is_dock(&d));
}

#[test]
fn both_missing_does_not_match() {
    let d = descriptor(None, None);
    assert!(!is_dock(&d));
}

#[test]
fn byte_equality_is_exact() {
    assert!(bytes_eq(&b"413c".to_vec(), &b"413c".to_vec()));
    assert!(!bytes_eq(&b"413c".to_vec(), &b"413d".to_vec()));
    assert!(!bytes_eq(&b"413c".to_vec(), &b"413".to_vec()));
    assert!(bytes_eq(&Vec::new(), &Vec::new()));
}

#[test]
fn copying_bytes_preserves_them() {
    let src = b"/sys/devices/usb1/1-2".to_vec();
    assert_eq!(copy_bytes(&src), src);
    let empty: Vec<u8> = Vec::new();
    assert_eq!(copy_bytes(&empty), empty);
}
