use icmp_echo::errors::format_error;
use icmp_echo::errors::u32_to_decimal;
use icmp_echo::errors::IcmpError;
use icmp_echo::errors::IP_BAD_ROUTE;
use icmp_echo::errors::IP_DEST_HOST_UNREACHABLE;
use icmp_echo::errors::IP_DEST_NET_UNREACHABLE;
use icmp_echo::errors::IP_GENERAL_FAILURE;
use icmp_echo::errors::IP_PACKET_TOO_BIG;
use icmp_echo::errors::IP_REQ_TIMED_OUT;
use icmp_echo::errors::IP_TTL_EXPIRED_REASSEM;
use icmp_echo::errors::IP_TTL_EXPIRED_TRANSIT;
use icmp_echo::errors::NO_ERROR;
use icmp_echo::result::os_family;

#[test]
fn named_codes_render_their_fixed_strings() {
    assert_eq!(format_error(IP_REQ_TIMED_OUT), "Request timed out");
    assert_eq!(format_error(IP_DEST_HOST_UNREACHABLE), "Destination host unreachable");
    assert_eq!(format_error(IP_DEST_NET_UNREACHABLE), "Destination network unreachable");
    assert_eq!(format_error(IP_TTL_EXPIRED_TRANSIT), "TTL expired in transit");
    assert_eq!(format_error(IP_TTL_EXPIRED_REASSEM), "Reassembly time exceeded");
    assert_eq!(format_error(IP_PACKET_TOO_BIG), "Packet too big");
    assert_eq!(format_error(IP_BAD_ROUTE), "Bad route");
    assert_eq!(format_error(IP_GENERAL_FAILURE), "General failure");
    assert_eq!(format_error(NO_ERROR), "No error");
}

#[test]
fn named_code_values() {
    assert_eq!(IP_DEST_NET_UNREACHABLE, 11002);
    assert_eq!(IP_DEST_HOST_UNREACHABLE, 11003);
    assert_eq!(IP_PACKET_TOO_BIG, 11009);
    assert_eq!(IP_REQ_TIMED_OUT, 11010);
    assert_eq!(IP_BAD_ROUTE, 11012);
    assert_eq!(IP_TTL_EXPIRED_TRANSIT, 11013);
    assert_eq!(IP_TTL_EXPIRED_REASSEM, 11014);
    assert_eq!(IP_GENERAL_FAILURE, 11050);
}

#[test]
fn unknown_codes_render_with_their_decimal_value() {
    assert_eq!(format_error(1), "Unknown error: 1");
    assert_eq!(format_error(42), "Unknown error: 42");
    assert_eq!(format_error(11011), "Unknown error: 11011");
    assert_eq!(format_error(u32::MAX), "Unknown error: 4294967295");
}

#[test]
fn every_sampled_code_renders_non_empty() {
    for code in [0u32, 1, 9999, 11002, 11010, 11050, 123456789, u32::MAX] {
        assert!(!format_error(code).is_empty());
    }
}

#[test]
fn decimal_rendering_is_exact() {
    assert_eq!(u32_to_decimal(0), "0");
    assert_eq!(u32_to_decimal(7), "7");
    assert_eq!(u32_to_decimal(10), "10");
    assert_eq!(u32_to_decimal(305), "305");
    assert_eq!(u32_to_decimal(4294967295), "4294967295");
}

#[test]
fn error_variants_render_their_messages() {
    assert_eq!(
        IcmpError::CreateHandleError(5).message(),
        "Unable to create ICMP handle: 5"
    );
    assert_eq!(
        IcmpError::SendEchoError(IP_REQ_TIMED_OUT).message(),
        "Ping error: Request timed out"
    );
    assert_eq!(
        IcmpError::GeneralError("bad input".to_string()).message(),
        "General error: bad input"
    );
    assert_eq!(IcmpError::UnsupportedPlatform.message(), "Unsupported platform");
}

#[test]
fn os_family_maps_the_documented_ttl_values() {
    assert_eq!(os_family(64), "Linux/Unix");
    assert_eq!(os_family(128), "Windows");
    assert_eq!(os_family(200), "Other/Undetermined");
    assert_eq!(os_family(0), "Linux/Unix");
    assert_eq!(os_family(255), "Other/Undetermined");
}

#[test]
fn os_family_band_boundaries_are_closed() {
    assert_eq!(os_family(63), "Linux/Unix");
    assert_eq!(os_family(65), "Windows");
    assert_eq!(os_family(127), "Windows");
    assert_eq!(os_family(129), "Other/Undetermined");
    assert_eq!(os_family(254), "Other/Undetermined");
}
