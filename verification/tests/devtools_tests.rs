use hebbian::devtools::{
    content_length, discovery_request, find_char, frame_response, header_end, parse_usize,
    response_body, split_local_endpoint,
};

fn chars(s: &str) -> Vec<char> {
    s.chars().collect()
}

#[test]
fn endpoints_split_at_the_first_slash() {
    assert_eq!(
        split_local_endpoint("http://127.0.0.1:9222/json/version"),
        Ok(("127.0.0.1:9222".to_string(), "json/version".to_string()))
    );
    assert_eq!(split_local_endpoint("http://localhost:9222"), Ok(("localhost:9222".to_string(), String::new())));
    assert_eq!(split_local_endpoint("https://x/y"), Err("仅支持 http 本地端点".to_string()));
    assert_eq!(
        discovery_request("127.0.0.1:9222", "json"),
        "GET /json HTTP/1.1\r\nHost: 127.0.0.1:9222\r\nConnection: close\r\n\r\n"
    );
    assert_eq!(find_char(&chars("a:b:c"), ':'), Some(1));
    assert_eq!(find_char(&chars("abc"), ':'), None);
}

#[test]
fn numbers_parse_as_usize_does() {
    for s in ["0", "42", "+7", "", "+", "-1", "1a", " 1", "18446744073709551616", "18446744073709551615"] {
        assert_eq!(parse_usize(&chars(s)), s.parse::<usize>().ok(), "{s:?}");
    }
}

#[test]
fn content_length_is_found_in_any_case() {
    assert_eq!(content_length("HTTP/1.1 200 OK\r\nContent-Type: json\r\ncontent-LENGTH:  12 \r\n"), Some(12));
    assert_eq!(content_length("HTTP/1.1 200 OK\r\nContent-Length: x\r\nContent-Length: 5"), Some(5));
    assert_eq!(content_length("HTTP/1.1 200 OK\r\nContent-Len: 5"), None);
    assert_eq!(content_length(" Content-Length: 5"), None);
}

#[test]
fn replies_are_framed_by_their_length() {
    let reply = b"HTTP/1.1 200 OK\r\nContent-Length: 4\r\n\r\n{\"a\"";
    assert_eq!(header_end(reply), Some(34));
    assert_eq!(frame_response(reply), Ok(Some((38, 4))));
    assert_eq!(response_body(reply, 38, 4), b"{\"a\"".to_vec());
    assert_eq!(response_body(reply, 38, 10), b"{\"a\"".to_vec());
    assert_eq!(frame_response(b"HTTP/1.1 200 OK\r\nX: 1"), Ok(None));
    assert_eq!(
        frame_response(b"HTTP/1.1 200 OK\r\nX: 1\r\n\r\n"),
        Err("CDP 发现响应缺 Content-Length".to_string())
    );
    let long = vec![b'a'; 65537];
    assert_eq!(frame_response(&long), Err("CDP 发现响应头超长".to_string()));
    let exact = vec![b'a'; 65536];
    assert_eq!(frame_response(&exact), Ok(None));
}
