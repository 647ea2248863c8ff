use hydrogen::i18n::{replace_text, same_text, t, t_all, t_vars, Iter};
use hydrogen::text::decimal_text;
use hydrogen::time_parsers::{_semicolon_syntax, _suffix_syntax};
use hydrogen::replies::parse_time;

#[test]
fn suffix_syntax_reads_seconds_minutes_hours() {
    assert_eq!(_suffix_syntax("10"), Some(10_000));
    assert_eq!(_suffix_syntax("10s"), Some(10_000));
    assert_eq!(_suffix_syntax("10S"), Some(10_000));
    assert_eq!(_suffix_syntax("10m"), Some(600_000));
    assert_eq!(_suffix_syntax("2H"), Some(7_200_000));
    assert_eq!(_suffix_syntax("999h"), Some(3_596_400_000));
    assert_eq!(_suffix_syntax("0s"), Some(0));
}

#[test]
fn suffix_syntax_refuses_other_texts() {
    assert_eq!(_suffix_syntax(""), None);
    assert_eq!(_suffix_syntax("1000"), None);
    assert_eq!(_suffix_syntax("1000s"), None);
    assert_eq!(_suffix_syntax("m"), None);
    assert_eq!(_suffix_syntax("10x"), None);
    assert_eq!(_suffix_syntax("1a0"), None);
    assert_eq!(_suffix_syntax(" 10"), None);
    assert_eq!(_suffix_syntax("1:30"), None);
}

#[test]
fn semicolon_syntax_reads_minutes_and_hours() {
    assert_eq!(_semicolon_syntax("1:30"), Some(90_000));
    assert_eq!(_semicolon_syntax("00:59"), Some(59_000));
    assert_eq!(_semicolon_syntax("1:02:03"), Some(3_723_000));
    assert_eq!(_semicolon_syntax("999:59:59"), Some(3_599_999_000));
    assert_eq!(_semicolon_syntax("120:00"), Some(7_200_000));
}

#[test]
fn semicolon_syntax_refuses_other_texts() {
    assert_eq!(_semicolon_syntax("1:60"), None);
    assert_eq!(_semicolon_syntax("1:5"), None);
    assert_eq!(_semicolon_syntax("1000:00"), None);
    assert_eq!(_semicolon_syntax("1:60:00"), None);
    assert_eq!(_semicolon_syntax(":30"), None);
    assert_eq!(_semicolon_syntax("30"), None);
    assert_eq!(_semicolon_syntax("1:2:3"), None);
    assert_eq!(_semicolon_syntax("a:30"), None);
}

#[test]
fn parse_time_tries_both_syntaxes() {
    assert_eq!(parse_time("45"), Some(45_000));
    assert_eq!(parse_time("3m"), Some(180_000));
    assert_eq!(parse_time("2:30"), Some(150_000));
    assert_eq!(parse_time("1:00:00"), Some(3_600_000));
    assert_eq!(parse_time("soon"), None);
}

#[test]
fn decimal_text_writes_numbers() {
    assert_eq!(decimal_text(0), "0");
    assert_eq!(decimal_text(7), "7");
    assert_eq!(decimal_text(1000), "1000");
    assert_eq!(decimal_text(u64::MAX), "18446744073709551615");
}

#[test]
fn t_translates_with_english_fallback() {
    assert_eq!(t("en_US", "error.empty_queue"), "There are no songs in the queue.");
    assert_eq!(t("pt_BR", "error.empty_queue"), "Não há músicas na fila.");
    assert_eq!(t("fr", "error.empty_queue"), "There are no songs in the queue.");
    assert_eq!(t("pt_BR", "generic.embed_footer"), "Hydrogen by Nashira Deer");
    assert_eq!(t("en_US", "seek.embed_title"), "Seeking song time");
    assert_eq!(t("pt_BR", "seek.seeking"), "**{0}**\n{1}\n``{2}/{3}``\n{4}");
    assert_eq!(t("en_US", "no.such.key"), "no.such.key");
    assert_eq!(t("pt_BR", "no.such.key"), "no.such.key");
}

#[test]
fn t_vars_fills_placeholders() {
    assert_eq!(
        t_vars("en_US", "player.timeout", &[("time", "10")]),
        "There's no one else connected to me in the voice chat. I will leave in 10 seconds."
    );
    assert_eq!(
        t_vars("pt_BR", "player.timeout", &[("time", "10"), ("0", "10")]),
        "Não há mais ninguém conectado no chat de voz. Eu estarei saindo em 10 segundos."
    );
    assert_eq!(
        t_vars("pt_BR", "skip.skipping", &[("0", "Song"), ("1", "Band")]),
        "Pulando para a música **Song** por **Band**."
    );
    assert_eq!(t_vars("en_US", "no.{0}", &[("0", "x")]), "no.x");
    assert_eq!(t_vars("en_US", "error.unknown", &[]), "An unknown error has happened!");
}

#[test]
fn replace_text_replaces_every_occurrence() {
    assert_eq!(replace_text("a{0}b{0}", "{0}", "x"), "axbx");
    assert_eq!(replace_text("aaa", "aa", "b"), "ba");
    assert_eq!(replace_text("abc", "z", "y"), "abc");
    assert!(same_text("abc", "abc"));
    assert!(!same_text("abc", "abd"));
    assert!(!same_text("ab", "abc"));
}

#[test]
fn t_all_lists_languages_with_the_key() {
    let mut iter: Iter = t_all("play.name");
    assert_eq!(iter.next(), Some(("en_US", "play")));
    assert_eq!(iter.next(), Some(("pt_BR", "tocar")));
    assert_eq!(iter.next(), None);
    let mut iter = t_all("generic.embed_footer");
    assert_eq!(iter.next(), Some(("en_US", "Hydrogen by Nashira Deer")));
    assert_eq!(iter.next(), None);
    assert_eq!(iter.index, 2);
    let mut iter = t_all("no.such.key");
    assert_eq!(iter.next(), None);
}
