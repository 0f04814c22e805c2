use iridescent::constants::{
    BLACK, BLUE, BOLD, CYAN, DEFAULT, GREEN, ITALIC, MAGENTA, RED, WHITE, YELLOW,
};
use iridescent::sequence::{escape, join};
use iridescent::{BackgroundColor, ForegroundColor, Rgb, Styled, StyledString};

#[test]
fn test_foreground_const_colors() {
    let black = "black".black();
    let red = "red".red();
    let green = "green".green();
    let yellow = "yellow".yellow();
    let blue = "blue".blue();
    let magenta = "magenta".magenta();
    let cyan = "cyan".cyan();
    let white = "white".white();

    assert_eq!(black.to_string(), "\x1b[30mblack\x1b[0m");
    assert_eq!(red.to_string(), "\x1b[31mred\x1b[0m");
    assert_eq!(green.to_string(), "\x1b[32mgreen\x1b[0m");
    assert_eq!(yellow.to_string(), "\x1b[33myellow\x1b[0m");
    assert_eq!(blue.to_string(), "\x1b[34mblue\x1b[0m");
    assert_eq!(magenta.to_string(), "\x1b[35mmagenta\x1b[0m");
    assert_eq!(cyan.to_string(), "\x1b[36mcyan\x1b[0m");
    assert_eq!(white.to_string(), "\x1b[37mwhite\x1b[0m");
}

#[test]
fn test_background_const_colors() {
    let black = "black".background(BLACK);
    let red = "red".background(RED);
    let green = "green".background(GREEN);
    let yellow = "yellow".background(YELLOW);
    let blue = "blue".background(BLUE);
    let magenta = "magenta".background(MAGENTA);
    let cyan = "cyan".background(CYAN);
    let white = "white".background(WHITE);

    assert_eq!(black.to_string(), "\x1b[40mblack\x1b[0m");
    assert_eq!(red.to_string(), "\x1b[41mred\x1b[0m");
    assert_eq!(green.to_string(), "\x1b[42mgreen\x1b[0m");
    assert_eq!(yellow.to_string(), "\x1b[43myellow\x1b[0m");
    assert_eq!(blue.to_string(), "\x1b[44mblue\x1b[0m");
    assert_eq!(magenta.to_string(), "\x1b[45mmagenta\x1b[0m");
    assert_eq!(cyan.to_string(), "\x1b[46mcyan\x1b[0m");
    assert_eq!(white.to_string(), "\x1b[47mwhite\x1b[0m");
}

#[test]
fn test_modes() {
    let bold = "bold".bold();
    let dim = "dim".dim();
    let italic = "italic".italic();
    let underline = "underline".underline();
    let blink = "blink".blink();
    let invert = "invert".invert();
    let hidden = "hidden".hidden();
    let strike = "strike".strike();

    assert_eq!(bold.to_string(), "\x1b[1mbold\x1b[0m");
    assert_eq!(dim.to_string(), "\x1b[2mdim\x1b[0m");
    assert_eq!(italic.to_string(), "\x1b[3mitalic\x1b[0m");
    assert_eq!(underline.to_string(), "\x1b[4munderline\x1b[0m");
    assert_eq!(blink.to_string(), "\x1b[5mblink\x1b[0m");
    assert_eq!(invert.to_string(), "\x1b[7minvert\x1b[0m");
    assert_eq!(hidden.to_string(), "\x1b[8mhidden\x1b[0m");
    assert_eq!(strike.to_string(), "\x1b[9mstrike\x1b[0m");
}

#[test]
fn test_high_bit_depth() {
    let pure_red = "pure red".foreground(Rgb::new(255, 0, 0));

    let pure_green = "pure green".foreground(Rgb::new(0, 255, 0));

    let pure_blue = "pure blue".foreground(Rgb::new(0, 0, 255));

    let bg = "random background".background(Rgb::new(50, 50, 50));

    let combined =
        "combined".foreground(Rgb::new(255, 255, 255)).background(Rgb::new(50, 50, 50));

    let combined_with_modes = "combined with modes"
        .bold()
        .foreground(Rgb::new(125, 125, 125))
        .background(Rgb::new(25, 25, 25));

    assert_eq!(pure_red.to_string(), "\x1b[38;2;255;0;0mpure red\x1b[0m");
    assert_eq!(pure_green.to_string(), "\x1b[38;2;0;255;0mpure green\x1b[0m");
    assert_eq!(pure_blue.to_string(), "\x1b[38;2;0;0;255mpure blue\x1b[0m");
    assert_eq!(bg.to_string(), "\x1b[48;2;50;50;50mrandom background\x1b[0m");
    assert_eq!(combined.to_string(), "\x1b[38;2;255;255;255;48;2;50;50;50mcombined\x1b[0m");
    assert_eq!(
        combined_with_modes.to_string(),
        "\x1b[1;38;2;125;125;125;48;2;25;25;25mcombined with modes\x1b[0m"
    );
}

#[test]
fn test_hexadecimal_strings() {
    let white = "white".foreground(ForegroundColor::try_from("#ffffff").unwrap());
    let black = "black".foreground(ForegroundColor::try_from("#000000").unwrap());

    assert_eq!(white.to_string(), "\x1b[38;2;255;255;255mwhite\x1b[0m");
    assert_eq!(black.to_string(), "\x1b[38;2;0;0;0mblack\x1b[0m");
}

#[test]
fn hexadecimal_background() {
    let styled = "night".background(BackgroundColor::try_from("#0a141e").unwrap());
    assert_eq!(styled.to_string(), "\x1b[48;2;10;20;30mnight\x1b[0m");
}

#[test]
fn plain_text_has_an_empty_parameter_list() {
    assert_eq!("plain".to_styled_string().to_string(), "\x1b[mplain\x1b[0m");
    assert_eq!(StyledString::new("plain").to_string(), "\x1b[mplain\x1b[0m");
    assert_eq!(StyledString::default().to_string(), "\x1b[m\x1b[0m");
}

#[test]
fn rendering_twice_gives_the_same_string() {
    let styled = "again".bold().foreground(Rgb::new(1, 20, 255)).background(RED);
    let first = styled.to_string();
    let second = styled.to_string();
    assert_eq!(first, second);
    assert_eq!(first, "\x1b[1;38;2;1;20;255;41magain\x1b[0m");
}

#[test]
fn indexed_foreground_takes_the_extended_form() {
    assert_eq!("x".foreground(200).to_string(), "\x1b[38;5;200mx\x1b[0m");
    assert_eq!("x".foreground(0).to_string(), "\x1b[38;5;0mx\x1b[0m");
    assert_eq!("x".foreground(29).to_string(), "\x1b[38;5;29mx\x1b[0m");
    assert_eq!("x".foreground(38).to_string(), "\x1b[38;5;38mx\x1b[0m");
    assert_eq!("x".foreground(DEFAULT).to_string(), "\x1b[38;5;39mx\x1b[0m");
    assert_eq!("x".foreground(255).to_string(), "\x1b[38;5;255mx\x1b[0m");
}

#[test]
fn indexed_background_takes_the_extended_form_unshifted() {
    assert_eq!("x".background(200).to_string(), "\x1b[48;5;200mx\x1b[0m");
    assert_eq!("x".background(29).to_string(), "\x1b[48;5;29mx\x1b[0m");
    assert_eq!("x".background(38).to_string(), "\x1b[48;5;38mx\x1b[0m");
    assert_eq!("x".background(40).to_string(), "\x1b[48;5;40mx\x1b[0m");
    assert_eq!("x".background(255).to_string(), "\x1b[48;5;255mx\x1b[0m");
}

#[test]
fn modes_come_first_whatever_the_call_order() {
    let colors_first = StyledString::new("t").background(BLUE).foreground(RED).bold().italic();
    let modes_first = StyledString::new("t").bold().italic().foreground(RED).background(BLUE);
    assert_eq!(colors_first.to_string(), "\x1b[1;3;31;44mt\x1b[0m");
    assert_eq!(modes_first.to_string(), "\x1b[1;3;31;44mt\x1b[0m");
    assert_eq!(colors_first, modes_first);
}

#[test]
fn modes_keep_their_order_and_their_repeats() {
    let styled = "m".strike().bold().bold().dim();
    assert_eq!(styled.sequence(), vec![9, 1, 1, 2]);
    assert_eq!(styled.to_string(), "\x1b[9;1;1;2mm\x1b[0m");
}

#[test]
fn the_last_color_set_wins() {
    let styled = "c".red().foreground(Rgb::new(1, 2, 3)).foreground(GREEN);
    assert_eq!(styled.to_string(), "\x1b[32mc\x1b[0m");
    let styled = "c".background(7).background(Rgb::new(9, 8, 7));
    assert_eq!(styled.to_string(), "\x1b[48;2;9;8;7mc\x1b[0m");
}

#[test]
fn sequence_lists_modes_foreground_background() {
    let styled = "s".bold().foreground(Rgb::new(4, 5, 6)).background(WHITE);
    assert_eq!(styled.sequence(), vec![BOLD, 38, 2, 4, 5, 6, 47]);
    let styled = "s".italic().foreground(CYAN).background(100);
    assert_eq!(styled.sequence(), vec![ITALIC, 36, 48, 5, 100]);
    assert_eq!(StyledString::new("s").sequence(), Vec::<u8>::new());
}

#[test]
fn numerals_have_no_leading_zeros() {
    let styled = "n".foreground(Rgb::new(0, 7, 10)).background(Rgb::new(99, 100, 109));
    assert_eq!(styled.to_string(), "\x1b[38;2;0;7;10;48;2;99;100;109mn\x1b[0m");
    let styled = "n".foreground(Rgb::new(110, 200, 255));
    assert_eq!(styled.to_string(), "\x1b[38;2;110;200;255mn\x1b[0m");
}

#[test]
fn text_is_kept_as_it_is() {
    let styled = "caf\u{e9} \x1b[0m; 31".magenta();
    assert_eq!(styled.to_string(), "\x1b[35mcaf\u{e9} \x1b[0m; 31\x1b[0m");
    assert_eq!("".yellow().to_string(), "\x1b[33m\x1b[0m");
}

#[test]
fn byte_triples_convert_to_rgb() {
    let triple = [12u8, 34, 56];
    assert_eq!(Rgb::from(&triple), Rgb::new(12, 34, 56));
    assert_eq!(ForegroundColor::from(&triple), ForegroundColor::Rgb(Rgb::new(12, 34, 56)));
    assert_eq!(BackgroundColor::from(&triple), BackgroundColor::Rgb(Rgb::new(12, 34, 56)));
    assert_eq!("b".foreground(&triple).to_string(), "\x1b[38;2;12;34;56mb\x1b[0m");
    assert_eq!("b".background(&triple).to_string(), "\x1b[48;2;12;34;56mb\x1b[0m");
}

#[test]
fn numbers_and_rgb_values_convert_to_colors() {
    assert_eq!(ForegroundColor::from(31), ForegroundColor::Simple(31));
    assert_eq!(BackgroundColor::from(31), BackgroundColor::Simple(31));
    let rgb = Rgb::new(1, 2, 3);
    assert_eq!(ForegroundColor::from(rgb), ForegroundColor::Rgb(rgb));
    assert_eq!(BackgroundColor::from(rgb), BackgroundColor::Rgb(rgb));
    assert_eq!(rgb.red, 1);
    assert_eq!(rgb.green, 2);
    assert_eq!(rgb.blue, 3);
}

#[test]
fn strings_convert_to_unstyled_text() {
    let borrowed = StyledString::from("text");
    let owned = StyledString::from(String::from("text"));
    assert_eq!(borrowed, owned);
    assert_eq!(borrowed, StyledString::new("text"));
    assert_eq!(owned.to_string(), "\x1b[mtext\x1b[0m");
    assert_eq!(StyledString::default(), StyledString::new(""));
}

#[test]
fn a_clone_renders_alike() {
    let styled = "twin".underline().foreground(CYAN);
    let twin = styled.clone();
    assert_eq!(twin, styled);
    assert_eq!(twin.to_string(), "\x1b[4;36mtwin\x1b[0m");
}

#[test]
fn methods_reach_owned_strings() {
    let owned = String::from("owned");
    assert_eq!(owned.blink().to_string(), "\x1b[5mowned\x1b[0m");
    assert_eq!(owned.as_str().white().to_string(), "\x1b[37mowned\x1b[0m");
}

#[test]
fn codes_are_joined_with_semicolons() {
    assert_eq!(join(&[]), "");
    assert_eq!(join(&[0]), "0");
    assert_eq!(join(&[7, 42]), "7;42");
    assert_eq!(join(&[1, 38, 5, 0, 48, 5, 255]), "1;38;5;0;48;5;255");
    assert_eq!(join(&[100, 101, 9, 10, 99, 200]), "100;101;9;10;99;200");
}

#[test]
fn text_is_wrapped_between_introducer_and_reset() {
    assert_eq!(escape(&[], ""), "\x1b[m\x1b[0m");
    assert_eq!(escape(&[], "bare"), "\x1b[mbare\x1b[0m");
    assert_eq!(escape(&[4], "one"), "\x1b[4mone\x1b[0m");
    assert_eq!(
        escape(&[1, 38, 5, 0, 48, 5, 255], "Hello, world!"),
        "\x1b[1;38;5;0;48;5;255mHello, world!\x1b[0m"
    );
}
