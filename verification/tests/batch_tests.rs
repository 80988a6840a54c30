use sentri::batch::ChunkBuffer;
use sentri::engine::MdiChecker;

#[test]
fn batch_completeness_three_lines_chunk_of_two() {
    // The qualifying input: three domains, one of them malformed.
    let lines = ["a.com", "invalid..x", "b.com"];
    let mut buffer = ChunkBuffer::new(2);
    let mut chunks: Vec<Vec<String>> = Vec::new();
    for line in lines {
        if let Some(chunk) = buffer.push_line(line) {
            chunks.push(chunk);
        }
    }
    if let Some(chunk) = buffer.finish() {
        chunks.push(chunk);
    }

    assert_eq!(chunks.len(), 2);
    assert_eq!(chunks[0], vec!["a.com".to_string(), "invalid..x".to_string()]);
    assert_eq!(chunks[1], vec!["b.com".to_string()]);

    // One result per dispatched domain, exactly one with an error.
    let checker = MdiChecker::new(2, 1000);
    let mut results = Vec::new();
    for chunk in &chunks {
        for domain in chunk {
            match checker.validation_failure(domain.as_str(), 1) {
                Some(error_result) => results.push(error_result),
                None => {
                    // The scan would go on over the network from here; for
                    // this check the validated domain is its own result.
                    results.push(checker.rate_limit_failure_result(domain.as_str(), "unused"));
                }
            }
        }
    }
    assert_eq!(results.len(), 3);
    let with_validation_error = results
        .iter()
        .filter(|r| {
            r.error
                .as_ref()
                .map(|e| e.contains("Invalid domain format"))
                .unwrap_or(false)
        })
        .count();
    assert_eq!(with_validation_error, 1);
}

#[test]
fn empty_input_produces_no_chunks() {
    let mut buffer = ChunkBuffer::new(10);
    for line in ["", "   ", "# a comment", "\t", "#another"] {
        assert!(buffer.push_line(line).is_none());
    }
    assert!(buffer.finish().is_none());
}

#[test]
fn lines_are_trimmed_and_comments_skipped() {
    let mut buffer = ChunkBuffer::new(100);
    assert!(buffer.push_line("  spaced.example  ").is_none());
    assert!(buffer.push_line("# skipped.example").is_none());
    assert!(buffer.push_line("kept.example").is_none());
    let chunk = buffer.finish().expect("two lines are pending");
    assert_eq!(
        chunk,
        vec!["spaced.example".to_string(), "kept.example".to_string()]
    );
    // The buffer is empty afterwards.
    assert!(buffer.finish().is_none());
}

#[test]
fn full_chunks_are_emitted_as_they_fill() {
    let mut buffer = ChunkBuffer::new(1);
    assert_eq!(
        buffer.push_line("one.example"),
        Some(vec!["one.example".to_string()])
    );
    assert_eq!(
        buffer.push_line("two.example"),
        Some(vec!["two.example".to_string()])
    );
    assert!(buffer.finish().is_none());
}

#[test]
fn zero_chunk_size_dispatches_each_line_alone() {
    let mut buffer = ChunkBuffer::new(0);
    assert_eq!(
        buffer.push_line("one.example"),
        Some(vec!["one.example".to_string()])
    );
    assert!(buffer.finish().is_none());
}
