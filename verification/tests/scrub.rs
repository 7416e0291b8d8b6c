use racer::scrub::scrub_xml_content_to_file;

#[test]
fn ampersand_before_a_space_is_escaped() {
    assert_eq!(scrub_xml_content_to_file(b"Tom & Jerry\n"), b"Tom &amp; Jerry\n".to_vec());
}

#[test]
fn every_such_ampersand_is_escaped() {
    assert_eq!(scrub_xml_content_to_file(b"& a & b & \n"), b"&amp; a &amp; b &amp; \n".to_vec());
    assert_eq!(scrub_xml_content_to_file(b"& & \n& \n"), b"&amp; &amp; \n&amp; \n".to_vec());
}

#[test]
fn escaped_ampersands_and_entities_are_kept() {
    let text = b"<title>a &amp; b &lt; c &#38; d?x=1&y=2</title>\n".to_vec();
    assert_eq!(scrub_xml_content_to_file(&text), text);
}

#[test]
fn ampersand_at_the_end_of_a_line_is_kept() {
    assert_eq!(scrub_xml_content_to_file(b"a &\n b"), b"a &\n b\n".to_vec());
    assert_eq!(scrub_xml_content_to_file(b"a &\r\n b\n"), b"a &\n b\n".to_vec());
    assert_eq!(scrub_xml_content_to_file(b"&"), b"&\n".to_vec());
}

#[test]
fn every_line_is_ended_by_one_line_feed() {
    assert_eq!(scrub_xml_content_to_file(b""), b"".to_vec());
    assert_eq!(scrub_xml_content_to_file(b"a"), b"a\n".to_vec());
    assert_eq!(scrub_xml_content_to_file(b"a\n"), b"a\n".to_vec());
    assert_eq!(scrub_xml_content_to_file(b"a\nb"), b"a\nb\n".to_vec());
    assert_eq!(scrub_xml_content_to_file(b"a\r\nb\r\n"), b"a\nb\n".to_vec());
    assert_eq!(scrub_xml_content_to_file(b"\n"), b"\n".to_vec());
    assert_eq!(scrub_xml_content_to_file(b"\r\n"), b"\n".to_vec());
    assert_eq!(scrub_xml_content_to_file(b"\n\n\r\n"), b"\n\n\n".to_vec());
    assert_eq!(scrub_xml_content_to_file(b" "), b" \n".to_vec());
}

#[test]
fn carriage_return_that_ends_no_line_is_kept() {
    assert_eq!(scrub_xml_content_to_file(b"a\rb\n"), b"a\rb\n".to_vec());
    assert_eq!(scrub_xml_content_to_file(b"a\r"), b"a\r\n".to_vec());
    assert_eq!(scrub_xml_content_to_file(b"a\r\r\n"), b"a\r\n".to_vec());
    assert_eq!(scrub_xml_content_to_file(b"\r"), b"\r\n".to_vec());
}

#[test]
fn bytes_that_are_no_text_are_kept() {
    let bytes = vec![0xffu8, 0x26, 0x20, 0x00, 0x26, 0xfe];
    assert_eq!(
        scrub_xml_content_to_file(&bytes),
        vec![0xffu8, 0x26, 0x61, 0x6d, 0x70, 0x3b, 0x20, 0x00, 0x26, 0xfe, 0x0a]
    );
}

#[test]
fn scrubbing_twice_changes_nothing_more() {
    let inputs: [&[u8]; 7] =
        [b"Tom & Jerry", b"& & & ", b"&&  &", b"plain\r\nlines\r\n", b"a &amp; b & c", b"", b"a\rb"];
    for input in inputs.iter() {
        let once = scrub_xml_content_to_file(input);
        assert_eq!(scrub_xml_content_to_file(&once), once);
    }
}
