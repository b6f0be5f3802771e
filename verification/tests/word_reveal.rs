use pp_bench::error::BenchError;
use pp_bench::little_endian::word_from_bytes;
use pp_bench::word_reveal::{reassemble, reveal_words, RevealedWord};

#[test]
fn word_from_bytes_puts_the_first_byte_lowest() {
    assert_eq!(word_from_bytes(0x01, 0x02, 0x03, 0x04), 0x0403_0201);
    assert_eq!(word_from_bytes(0xff, 0xff, 0xff, 0xff), u32::MAX);
    assert_eq!(word_from_bytes(0, 0, 0, 0x80), 0x8000_0000);
}

#[test]
fn reveal_words_pads_the_last_chunk_with_zeros() {
    let words = reveal_words(&vec![1, 2, 3, 4, 5]);
    assert_eq!(
        words,
        vec![
            RevealedWord { index: 0, word: 0x0403_0201 },
            RevealedWord { index: 1, word: 0x0000_0005 },
        ]
    );
}

#[test]
fn reveal_words_of_nothing_is_nothing() {
    assert_eq!(reveal_words(&Vec::new()), Vec::new());
}

#[test]
fn reveal_words_agrees_with_from_le_bytes() {
    let bytes: Vec<u8> = (0u8..=250).collect();
    let words = reveal_words(&bytes);
    assert_eq!(words.len(), 63);
    for (i, chunk) in bytes.chunks(4).enumerate() {
        let mut four = [0u8; 4];
        four[..chunk.len()].copy_from_slice(chunk);
        assert_eq!(words[i].index, i);
        assert_eq!(words[i].word, u32::from_le_bytes(four));
    }
}

#[test]
fn reassemble_gives_the_buffer_back_for_every_length() {
    for len in 0usize..=41 {
        let bytes: Vec<u8> = (0..len).map(|i| (i * 7 + 3) as u8).collect();
        let words = reveal_words(&bytes);
        assert_eq!(words.len(), (len + 3) / 4);
        assert_eq!(reassemble(&words, len), Ok(bytes));
    }
}

#[test]
fn reassemble_cuts_to_the_length_asked_for() {
    let words = vec![
        RevealedWord { index: 0, word: 0x4433_2211 },
        RevealedWord { index: 1, word: 0x8877_6655 },
    ];
    assert_eq!(reassemble(&words, 5), Ok(vec![0x11, 0x22, 0x33, 0x44, 0x55]));
    assert_eq!(reassemble(&words, 0), Ok(Vec::new()));
    assert_eq!(
        reassemble(&words, 8),
        Ok(vec![0x11, 0x22, 0x33, 0x44, 0x55, 0x66, 0x77, 0x88])
    );
}

#[test]
fn reassemble_rejects_too_few_words() {
    let words = vec![RevealedWord { index: 0, word: 1 }];
    assert_eq!(reassemble(&words, 5), Err(BenchError::EncodingError));
    assert_eq!(reassemble(&Vec::new(), 1), Err(BenchError::EncodingError));
}

#[test]
fn reassemble_takes_the_words_in_any_order() {
    let swapped = vec![
        RevealedWord { index: 1, word: 0x8877_6655 },
        RevealedWord { index: 0, word: 0x4433_2211 },
    ];
    assert_eq!(
        reassemble(&swapped, 8),
        Ok(vec![0x11, 0x22, 0x33, 0x44, 0x55, 0x66, 0x77, 0x88])
    );
    assert_eq!(reassemble(&swapped, 3), Ok(vec![0x11, 0x22, 0x33]));
    let bytes: Vec<u8> = (0u8..=41).collect();
    let mut words = reveal_words(&bytes);
    words.reverse();
    assert_eq!(reassemble(&words, bytes.len()), Ok(bytes.clone()));
    words.rotate_left(4);
    assert_eq!(reassemble(&words, bytes.len()), Ok(bytes));
}

#[test]
fn reassemble_rejects_a_missing_index() {
    let gap = vec![
        RevealedWord { index: 0, word: 0x4433_2211 },
        RevealedWord { index: 2, word: 0x8877_6655 },
    ];
    assert_eq!(reassemble(&gap, 4), Err(BenchError::EncodingError));
    let far = vec![RevealedWord { index: usize::MAX, word: 1 }];
    assert_eq!(reassemble(&far, 0), Err(BenchError::EncodingError));
}

#[test]
fn reassemble_rejects_an_index_that_occurs_twice() {
    let twice = vec![
        RevealedWord { index: 0, word: 0x4433_2211 },
        RevealedWord { index: 0, word: 0x8877_6655 },
    ];
    assert_eq!(reassemble(&twice, 4), Err(BenchError::EncodingError));
    let twice_late = vec![
        RevealedWord { index: 1, word: 1 },
        RevealedWord { index: 0, word: 2 },
        RevealedWord { index: 1, word: 3 },
    ];
    assert_eq!(reassemble(&twice_late, 8), Err(BenchError::EncodingError));
}
