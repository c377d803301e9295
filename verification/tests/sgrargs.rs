use easy_sgr::macros::sgr::{sgrargs, ArgKind};

#[test]
fn sgrargs_splits_at_keywords() {
    let a = sgrargs("a{Bold}b{RedFg}").unwrap();
    assert_eq!(&vec!["a", "b", ""], a.pieces());
    let kinds: Vec<ArgKind> = a.args().iter().map(|x| x.kind()).collect();
    assert_eq!(vec![ArgKind::Bold, ArgKind::RedFg], kinds);
    assert_eq!((1, 6), (a.args()[0].span().start(), a.args()[0].span().end()));
    assert_eq!((8, 14), (a.args()[1].span().start(), a.args()[1].span().end()));
}

#[test]
fn sgrargs_counts_bytes() {
    let a = sgrargs("é{Reset}").unwrap();
    assert_eq!((2, 8), (a.args()[0].span().start(), a.args()[0].span().end()));
    assert_eq!(&vec!["é", ""], a.pieces());
}

#[test]
fn sgrargs_without_keywords() {
    let a = sgrargs("no braces").unwrap();
    assert_eq!(&vec!["no braces"], a.pieces());
    assert!(a.args().is_empty());
    assert!(sgrargs("{Nope}").is_none());
    assert!(sgrargs("x{}").is_none());
}

#[test]
fn sgrargs_pieces_rejoin() {
    let s = "a{Bold}bé{RedFg}c{Reset}";
    let a = sgrargs(s).unwrap();
    let mut r = String::new();
    for (k, p) in a.pieces().iter().enumerate() {
        r.push_str(p);
        if k < a.args().len() {
            let sp = a.args()[k].span();
            r.push_str(&s[sp.start()..=sp.end()]);
        }
    }
    assert_eq!(s, r);
}
