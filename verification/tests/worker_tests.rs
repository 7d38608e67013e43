use authflow::addr::{parse_loopback_addr, LoopbackAddr};
use authflow::text::u64_to_string;
use authflow::worker::{
    build_image_data_url, extension_of, interpret_worker_response, mime_for_extension,
};

#[test]
fn test_mime_for_extension_table() {
    assert_eq!(mime_for_extension("png"), "image/png");
    assert_eq!(mime_for_extension("jpg"), "image/jpeg");
    assert_eq!(mime_for_extension("jpeg"), "image/jpeg");
    assert_eq!(mime_for_extension("webp"), "image/webp");
    assert_eq!(mime_for_extension("gif"), "image/gif");
    assert_eq!(mime_for_extension("tiff"), "image/png");
}

#[test]
fn test_extension_of_paths() {
    assert_eq!(extension_of("shot.png").as_deref(), Some("png"));
    assert_eq!(extension_of("/tmp/a/shot.final.jpeg").as_deref(), Some("jpeg"));
    assert_eq!(extension_of("noext"), None);
    assert_eq!(extension_of(".hidden"), None);
    assert_eq!(extension_of("dir.d/file"), None);
    assert_eq!(extension_of("trailing."), Some("".to_string()));
}

#[test]
fn test_build_image_data_url_encodes_bytes() {
    // base64 of [0, 1, 2] is AAEC; the wrapper would fail this test if it
    // handed its argument back unchanged.
    let url = build_image_data_url("image/png", &vec![0u8, 1, 2]);
    assert_eq!(url, "data:image/png;base64,AAEC");
    let url = build_image_data_url("image/jpeg", &vec![255u8]);
    assert_eq!(url, "data:image/jpeg;base64,/w==");
}

#[test]
fn test_worker_reply_cases() {
    assert_eq!(
        interpret_worker_response(200, "{\"ai_text\":\"hello\"}").unwrap(),
        "hello"
    );
    assert_eq!(
        interpret_worker_response(500, "oops").unwrap_err(),
        "worker returned status 500: oops"
    );
    assert!(interpret_worker_response(200, "{}").is_err());
}

#[test]
fn test_u64_to_string_decimal() {
    assert_eq!(u64_to_string(0), "0");
    assert_eq!(u64_to_string(54321), "54321");
    assert_eq!(u64_to_string(18446744073709551615), "18446744073709551615");
}

#[test]
fn test_parse_loopback_addr_reads_host_and_port() {
    assert_eq!(
        parse_loopback_addr("http://127.0.0.1:54321/callback"),
        LoopbackAddr { ip_a: 127, ip_b: 0, ip_c: 0, ip_d: 1, port: 54321 }
    );
    assert_eq!(
        parse_loopback_addr("http://localhost:8000/cb"),
        LoopbackAddr { ip_a: 127, ip_b: 0, ip_c: 0, ip_d: 1, port: 8000 }
    );
    assert_eq!(
        parse_loopback_addr("http://10.1.2.3/x"),
        LoopbackAddr { ip_a: 10, ip_b: 1, ip_c: 2, ip_d: 3, port: 54321 }
    );
}

#[test]
fn test_parse_loopback_addr_falls_back() {
    let default = LoopbackAddr { ip_a: 127, ip_b: 0, ip_c: 0, ip_d: 1, port: 54321 };
    assert_eq!(parse_loopback_addr("not a uri"), default);
    assert_eq!(parse_loopback_addr("revision://github/callback"), default);
    assert_eq!(parse_loopback_addr("http://127.0.0.1:notaport/x"), default);
    assert_eq!(parse_loopback_addr("http://127.00.0.1:8000/x"),
        LoopbackAddr { ip_a: 127, ip_b: 0, ip_c: 0, ip_d: 1, port: 8000 });
}
