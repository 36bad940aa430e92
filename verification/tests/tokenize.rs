use tiniestsegmenter::get_ctype;
use tiniestsegmenter::tokenize;
use tiniestsegmenter::Category;

#[test]
fn test_tokenize() {
    assert_eq!(tokenize("キラーアプリを考える").unwrap(), ["キラーアプリ", "を", "考える"]);
    assert_eq!(
        tokenize("TinySegmenterはJavascriptだけ書かれた極めてコンパクトな日本語分かち書きソフトウェアです。").unwrap(),
        [
            "TinySegmenter",
            "は",
            "Javascript",
            "だけ",
            "書か",
            "れ",
            "た",
            "極め",
            "て",
            "コンパクト",
            "な",
            "日本",
            "語分",
            "かち",
            "書き",
            "ソフトウェア",
            "です",
            "。"
        ]
    );
}

#[test]
fn empty_input_yields_no_tokens() {
    let toks = tokenize("").unwrap();
    assert!(toks.is_empty());
}

#[test]
fn concatenation_reproduces_input() {
    let inputs = [
        "キラーアプリを考える",
        "TinySegmenterはJavascriptだけ書かれた極めてコンパクトな日本語分かち書きソフトウェアです。",
        "私の名前は中野です",
        "a",
        "  ",
        "abc def",
        "12月3日",
        "ﾃｽﾄです",
        "絵文字🙂も通る",
    ];
    for s in inputs {
        let toks = tokenize(s).unwrap();
        assert_eq!(toks.concat(), *s);
    }
}

#[test]
fn tokens_are_nonempty() {
    let inputs = ["キラーアプリを考える", "私の名前は中野です", "x", "。。。"];
    for s in inputs {
        for tok in tokenize(s).unwrap() {
            assert!(!tok.is_empty());
        }
    }
}

#[test]
fn repeated_calls_agree() {
    let s = "TinySegmenterはJavascriptだけ書かれた極めてコンパクトな日本語分かち書きソフトウェアです。";
    let first = tokenize(s).unwrap();
    let second = tokenize(s).unwrap();
    assert_eq!(first, second);
}

#[test]
fn classifier_categories() {
    // A numeral ideograph is Kanji-numeral even though it sits in the Han block.
    assert_eq!(get_ctype('五'), Category::KanjiNumeral);
    assert_eq!(get_ctype('兆'), Category::KanjiNumeral);
    assert_eq!(get_ctype('語'), Category::Han);
    assert_eq!(get_ctype('々'), Category::Han);
    assert_eq!(get_ctype('ア'), Category::Kana);
    assert_eq!(get_ctype('ー'), Category::Kana);
    assert_eq!(get_ctype('あ'), Category::Hiragana);
    assert_eq!(get_ctype('Ａ'), Category::Latin);
    assert_eq!(get_ctype('z'), Category::Latin);
    assert_eq!(get_ctype('５'), Category::Digit);
    assert_eq!(get_ctype('7'), Category::Digit);
    assert_eq!(get_ctype('。'), Category::Other);
    assert_eq!(get_ctype('!'), Category::Other);
}

#[test]
fn classifier_is_deterministic() {
    for c in ['五', '語', 'ア', 'あ', 'Ａ', '５', '。'] {
        assert_eq!(get_ctype(c), get_ctype(c));
    }
}
