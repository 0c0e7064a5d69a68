use uwb_rs::uart_line;

#[test]
fn uart_line_appends_newline() {
    let line = uart_line("measurement done!");
    assert_eq!(line.as_bytes(), b"measurement done!\n");
}

#[test]
fn uart_line_of_empty_message() {
    let line = uart_line("");
    assert_eq!(line.as_bytes(), b"\n");
}

#[test]
fn uart_line_fills_capacity() {
    let msg = "a".repeat(63);
    let line = uart_line(&msg);
    assert_eq!(line.len(), 64);
    assert_eq!(line.as_bytes()[63], b'\n');
}

#[test]
fn uart_line_counts_utf8_bytes() {
    let line = uart_line("é");
    assert_eq!(line.as_bytes(), "é\n".as_bytes());
}

#[test]
fn uart_line_timeout_message() {
    let line = uart_line("Timeout error occured");
    assert_eq!(line.as_str(), "Timeout error occured\n");
}

#[test]
fn uart_line_bytes_are_sent_bytes() {
    let line = uart_line("measurement done!");
    assert_eq!(uwb_rs::uart::uart_line_bytes(&line), b"measurement done!\n");
}
