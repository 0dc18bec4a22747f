use rabbit_rpc::correlation::{new_correlation_id, CORRELATION_ID_LEN};

#[test]
fn correlation_id_has_the_canonical_shape() {
    for _ in 0..200 {
        let id = new_correlation_id();
        let chars: Vec<char> = id.chars().collect();
        assert_eq!(chars.len(), 36);
        assert_eq!(id.len(), CORRELATION_ID_LEN);
        for (i, c) in chars.iter().enumerate() {
            if i == 8 || i == 13 || i == 18 || i == 23 {
                assert_eq!(*c, '-');
            } else {
                assert!(matches!(*c, '0'..='9' | 'a'..='f'), "{id}");
            }
        }
        assert_eq!(chars[14], '4');
        assert!(matches!(chars[19], '8' | '9' | 'a' | 'b'), "{id}");
    }
}

#[test]
fn correlation_ids_differ_from_call_to_call() {
    let mut seen = std::collections::BTreeSet::new();
    for _ in 0..1000 {
        assert!(seen.insert(new_correlation_id()));
    }
}
