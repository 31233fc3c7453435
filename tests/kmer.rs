use proteome_kmers::kmer::split_sequence;

fn pairs(v: &[(String, usize)]) -> Vec<(&str, usize)> {
    v.iter().map(|(s, i)| (s.as_str(), *i)).collect()
}

#[test]
fn kmers_of_nine_residues_with_k_three() {
    let r = split_sequence("YLLDLHSYL", 3);
    assert_eq!(
        pairs(&r),
        vec![
            ("YLL", 0),
            ("LLD", 1),
            ("LDL", 2),
            ("DLH", 3),
            ("LHS", 4),
            ("HSY", 5),
            ("SYL", 6)
        ]
    );
}

#[test]
fn sequence_shorter_than_k_gives_no_kmers() {
    assert!(split_sequence("MK", 3).is_empty());
    assert!(split_sequence("", 1).is_empty());
}

#[test]
fn count_and_windows_match_sequence() {
    let s = "MKVLAAGIVALLLAA";
    for k in 1..=s.len() {
        let r = split_sequence(s, k);
        assert_eq!(r.len(), s.len() - k + 1);
        for (i, (kmer, off)) in r.iter().enumerate() {
            assert_eq!(*off, i);
            assert_eq!(kmer.as_str(), &s[i..i + k]);
        }
    }
}

#[test]
fn k_equal_to_length_gives_whole_sequence() {
    assert_eq!(pairs(&split_sequence("MKV", 3)), vec![("MKV", 0)]);
}

#[test]
fn two_residue_kmers_of_short_sequence() {
    assert_eq!(pairs(&split_sequence("MKV", 2)), vec![("MK", 0), ("KV", 1)]);
}

#[test]
fn kmers_count_characters_not_bytes() {
    assert_eq!(pairs(&split_sequence("AéB", 2)), vec![("Aé", 0), ("éB", 1)]);
}

#[test]
fn huge_k_gives_no_kmers() {
    assert!(split_sequence("MKV", usize::MAX).is_empty());
}
