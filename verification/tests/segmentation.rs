use tantivy_vibrato::error::{Refusal, TantivyVibratoError};
use tantivy_vibrato::stream::{Cursor, VibratoTokenStream};
use tantivy_vibrato::token::Token;
use tantivy_vibrato::tokenizer::VibratoTokenizer;
use vibrato::Dictionary;

const LEXICON: &str = "すもも,1,1,0,名詞
もも,1,1,0,名詞
も,2,2,0,助詞
の,2,2,0,助詞
うち,1,1,0,名詞";

// Connection id 0 is the sentence boundary, 1 a noun, 2 a particle. Nouns and
// particles take turns for free; two of a kind in a row are expensive.
const MATRIX: &str = "3 3
0 0 0
0 1 0
0 2 100
1 0 0
1 1 100
1 2 0
2 0 100
2 1 0
2 2 100";

const CHARACTERS: &str = "DEFAULT 0 1 0";

const UNKNOWN: &str = "DEFAULT,1,1,1000,*";

fn dictionary_image() -> Vec<u8> {
    let dictionary = Dictionary::from_readers(
        LEXICON.as_bytes(),
        MATRIX.as_bytes(),
        CHARACTERS.as_bytes(),
        UNKNOWN.as_bytes(),
    )
    .expect("the dictionary sources are well formed");
    let mut image = Vec::new();
    dictionary
        .write(&mut image)
        .expect("a dictionary can be written to memory");
    image
}

fn tokenizer() -> VibratoTokenizer {
    VibratoTokenizer::new(&dictionary_image()).expect("the image was written by the engine itself")
}

fn drain(stream: &mut VibratoTokenStream) -> Vec<Token> {
    let mut tokens = vec![];
    while let Some(token) = stream.next() {
        tokens.push(token.clone());
    }
    tokens
}

#[test]
fn test1() {
    let tokenizer = tokenizer();
    let mut stream = tokenizer.token_stream("すもももももももものうち");
    let mut tokens = vec![];
    while let Some(token) = stream.next() {
        tokens.push(token.clone());
    }

    assert_eq!(tokens.len(), 7);
    {
        let token = &tokens[0];
        assert_eq!(token.text, "すもも");
        assert_eq!(token.offset_from, 0);
        assert_eq!(token.offset_to, 9);
        assert_eq!(token.position, 0);
    }
    {
        let token = &tokens[1];
        assert_eq!(token.text, "も");
        assert_eq!(token.offset_from, 9);
        assert_eq!(token.offset_to, 12);
        assert_eq!(token.position, 3);
    }
    {
        let token = &tokens[2];
        assert_eq!(token.text, "もも");
        assert_eq!(token.offset_from, 12);
        assert_eq!(token.offset_to, 18);
        assert_eq!(token.position, 4);
    }
    {
        let token = &tokens[3];
        assert_eq!(token.text, "も");
        assert_eq!(token.offset_from, 18);
        assert_eq!(token.offset_to, 21);
        assert_eq!(token.position, 6);
    }
    {
        let token = &tokens[4];
        assert_eq!(token.text, "もも");
        assert_eq!(token.offset_from, 21);
        assert_eq!(token.offset_to, 27);
        assert_eq!(token.position, 7);
    }
    {
        let token = &tokens[5];
        assert_eq!(token.text, "の");
        assert_eq!(token.offset_from, 27);
        assert_eq!(token.offset_to, 30);
        assert_eq!(token.position, 9);
    }
    {
        let token = &tokens[6];
        assert_eq!(token.text, "うち");
        assert_eq!(token.offset_from, 30);
        assert_eq!(token.offset_to, 36);
        assert_eq!(token.position, 10);
    }
}

#[test]
fn empty() {
    let tokenizer = tokenizer();
    let mut stream = tokenizer.token_stream("");
    let mut tokens = vec![];
    while let Some(token) = stream.next() {
        tokens.push(token.clone());
    }

    assert_eq!(tokens.len(), 0);
}

#[test]
fn empty_text_is_exhausted_by_the_first_advance() {
    let tokenizer = tokenizer();
    let mut stream = tokenizer.token_stream("");
    assert_eq!(stream.len(), 0);
    assert_eq!(stream.cursor(), Cursor::NotStarted);
    assert!(!stream.advance());
    assert_eq!(stream.cursor(), Cursor::Exhausted);
    assert!(stream.current().is_none());
}

#[test]
fn position_lengths_count_characters() {
    let tokenizer = tokenizer();
    let mut stream = tokenizer.token_stream("すもももももももものうち");
    let lengths: Vec<usize> = drain(&mut stream)
        .iter()
        .map(|token| token.position_length)
        .collect();
    assert_eq!(lengths, vec![3, 1, 2, 1, 2, 1, 2]);
}

#[test]
fn byte_offsets_stay_inside_the_text_and_never_go_back() {
    let text = "すもももももももものうち";
    let tokenizer = tokenizer();
    let tokens = drain(&mut tokenizer.token_stream(text));
    assert!(!tokens.is_empty());
    for token in &tokens {
        assert!(token.offset_from <= token.offset_to);
        assert!(token.offset_to <= text.len());
    }
    for pair in tokens.windows(2) {
        assert!(pair[0].offset_from <= pair[1].offset_from);
        assert!(pair[0].offset_to <= pair[1].offset_to);
    }
}

#[test]
fn contiguous_units_chain_their_positions() {
    let tokenizer = tokenizer();
    let tokens = drain(&mut tokenizer.token_stream("すもももももももものうち"));
    assert_eq!(tokens[0].position, 0);
    for pair in tokens.windows(2) {
        assert_eq!(pair[1].position, pair[0].position + pair[0].position_length);
    }
}

#[test]
fn the_text_of_a_token_is_the_slice_at_its_offsets() {
    let text = "もものうち";
    let tokenizer = tokenizer();
    let tokens = drain(&mut tokenizer.token_stream(text));
    assert_eq!(tokens.len(), 3);
    for token in &tokens {
        assert_eq!(token.text, &text[token.offset_from..token.offset_to]);
    }
    assert_eq!(tokens[0].text, "もも");
    assert_eq!(tokens[1].text, "の");
    assert_eq!(tokens[2].text, "うち");
}

#[test]
fn characters_outside_the_lexicon_form_one_unit() {
    let tokenizer = tokenizer();
    let tokens = drain(&mut tokenizer.token_stream("abc"));
    assert_eq!(tokens.len(), 1);
    assert_eq!(tokens[0].text, "abc");
    assert_eq!(tokens[0].offset_from, 0);
    assert_eq!(tokens[0].offset_to, 3);
    assert_eq!(tokens[0].position, 0);
    assert_eq!(tokens[0].position_length, 3);
}

#[test]
fn two_tokenizers_over_one_image_agree() {
    let image = dictionary_image();
    let first = VibratoTokenizer::new(&image).expect("the image decodes");
    let second = VibratoTokenizer::new(&image).expect("the image decodes");
    let text = "すもももももももものうち";
    let left = drain(&mut first.token_stream(text));
    let right = drain(&mut second.token_stream(text));
    assert_eq!(left.len(), right.len());
    for (a, b) in left.iter().zip(right.iter()) {
        assert_eq!(a.text, b.text);
        assert_eq!(a.offset_from, b.offset_from);
        assert_eq!(a.offset_to, b.offset_to);
        assert_eq!(a.position, b.position);
        assert_eq!(a.position_length, b.position_length);
    }
}

#[test]
fn a_clone_shares_the_dictionary() {
    let first = tokenizer();
    let copy = first.clone();
    let left = drain(&mut first.token_stream("もものうち"));
    let right = drain(&mut copy.token_stream("もものうち"));
    assert_eq!(left.len(), 3);
    assert_eq!(right.len(), 3);
    for (a, b) in left.iter().zip(right.iter()) {
        assert_eq!(a.text, b.text);
        assert_eq!(a.offset_from, b.offset_from);
    }
}

#[test]
fn one_tokenizer_serves_many_texts() {
    let tokenizer = tokenizer();
    assert_eq!(drain(&mut tokenizer.token_stream("もも")).len(), 1);
    assert_eq!(drain(&mut tokenizer.token_stream("")).len(), 0);
    assert_eq!(drain(&mut tokenizer.token_stream("もものうち")).len(), 3);
    assert_eq!(drain(&mut tokenizer.token_stream("もも")).len(), 1);
}

#[test]
fn the_longest_sentence_the_lattice_holds_is_segmented() {
    let text = "a".repeat(65534);
    let tokenizer = tokenizer();
    let (mut stream, refusal) = tokenizer.token_stream_with_diagnostic(&text);
    assert!(refusal.is_none());
    let tokens = drain(&mut stream);
    assert_eq!(tokens.len(), 1);
    assert_eq!(tokens[0].offset_from, 0);
    assert_eq!(tokens[0].offset_to, 65534);
    assert_eq!(tokens[0].position, 0);
    assert_eq!(tokens[0].position_length, 65534);
}

#[test]
fn a_sentence_that_fills_the_lattice_gives_no_tokens() {
    let text = "a".repeat(65535);
    let tokenizer = tokenizer();
    let (mut stream, refusal) = tokenizer.token_stream_with_diagnostic(&text);
    assert!(matches!(refusal, Some(Refusal::LatticeFull)));
    assert_eq!(stream.len(), 0);
    assert!(!stream.advance());

    let mut quiet = tokenizer.token_stream(&text);
    assert_eq!(quiet.len(), 0);
    assert!(quiet.next().is_none());
}

#[test]
fn a_sentence_too_long_gives_no_tokens_and_a_diagnostic() {
    let text = "a".repeat(65536);
    let tokenizer = tokenizer();
    let (mut stream, refusal) = tokenizer.token_stream_with_diagnostic(&text);
    assert!(matches!(refusal, Some(Refusal::Engine(_))));
    assert_eq!(stream.len(), 0);
    assert!(!stream.advance());

    let mut quiet = tokenizer.token_stream(&text);
    assert_eq!(quiet.len(), 0);
    assert!(quiet.next().is_none());
}

#[test]
fn a_tokenizer_goes_on_after_a_refused_sentence() {
    let tokenizer = tokenizer();
    assert_eq!(tokenizer.token_stream(&"a".repeat(70000)).len(), 0);
    assert_eq!(drain(&mut tokenizer.token_stream("もものうち")).len(), 3);
}

#[test]
fn the_length_limit_counts_characters_not_bytes() {
    let text = "も".repeat(30000);
    assert!(text.len() > 65535);
    let tokenizer = tokenizer();
    let (stream, refusal) = tokenizer.token_stream_with_diagnostic(&text);
    assert!(refusal.is_none());
    assert!(stream.len() > 0);
}

#[test]
fn an_image_that_does_not_decode_is_refused() {
    let outcome = VibratoTokenizer::new(&[]);
    assert!(matches!(outcome, Err(TantivyVibratoError::VibratoError(_))));
}

#[test]
fn a_failed_read_is_passed_on() {
    let failure = std::io::Error::new(std::io::ErrorKind::NotFound, "no such dictionary");
    match TantivyVibratoError::from(failure) {
        TantivyVibratoError::IOError(error) => {
            assert_eq!(error.kind(), std::io::ErrorKind::NotFound);
            assert_eq!(error.to_string(), "no such dictionary");
        }
        _ => panic!("a failed read must come back as an I/O error"),
    }
}

#[test]
fn an_error_of_the_engine_is_passed_on() {
    let refused = Dictionary::from_readers(
        LEXICON.as_bytes(),
        "3".as_bytes(),
        CHARACTERS.as_bytes(),
        UNKNOWN.as_bytes(),
    );
    let error = match refused {
        Err(error) => error,
        Ok(_) => panic!("a matrix header of one number is no header"),
    };
    let message = error.to_string();
    match TantivyVibratoError::from(error) {
        TantivyVibratoError::VibratoError(inner) => assert_eq!(inner.to_string(), message),
        _ => panic!("an error of the engine keeps its variant"),
    }
}

#[test]
fn a_decoded_dictionary_gives_a_tokenizer() {
    let decoded = Dictionary::read(dictionary_image().as_slice());
    let tokenizer = VibratoTokenizer::from_decoded(decoded).expect("the image decodes");
    assert_eq!(drain(&mut tokenizer.token_stream("もものうち")).len(), 3);
}

#[test]
fn a_failed_decode_keeps_the_error_of_the_engine() {
    let empty: &[u8] = &[];
    let message = match Dictionary::read(empty) {
        Err(error) => error.to_string(),
        Ok(_) => panic!("an empty image holds no dictionary"),
    };
    match VibratoTokenizer::from_decoded(Dictionary::read(empty)) {
        Err(TantivyVibratoError::VibratoError(error)) => assert_eq!(error.to_string(), message),
        _ => panic!("a failed decode must come back as the engine's error"),
    }
}

#[test]
fn offsets_fall_between_characters() {
    let text = "すもももももももものうち";
    let tokenizer = tokenizer();
    for token in drain(&mut tokenizer.token_stream(text)) {
        assert!(text.is_char_boundary(token.offset_from));
        assert!(text.is_char_boundary(token.offset_to));
        assert_eq!(token.text.chars().count(), token.position_length);
        assert!(token.position + token.position_length <= text.chars().count());
    }
}
