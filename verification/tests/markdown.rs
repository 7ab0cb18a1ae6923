use ortholinear::markdown::{render_markdown, style_with_mentions};
use ortholinear::styled::{Color, Style};

#[test]
fn empty_input_returns_empty() {
    let result = render_markdown("");
    assert!(result.is_empty());
}

#[test]
fn plain_text_renders_as_single_line() {
    let result = render_markdown("Hello world");
    assert_eq!(result.len(), 1);
    assert_eq!(result[0].spans.len(), 1);
    assert_eq!(result[0].spans[0].content, "Hello world");
}

#[test]
fn h1_has_cyan_bold_style() {
    let result = render_markdown("# Header One");
    assert!(!result.is_empty());
    let first_line = &result[0];
    assert!(!first_line.spans.is_empty());
    let style = first_line.spans[0].style;
    assert_eq!(style.fg, Some(Color::Cyan));
    assert!(style.add_modifier.bold);
}

#[test]
fn h2_has_blue_bold_style() {
    let result = render_markdown("## Header Two");
    assert!(!result.is_empty());
    let first_line = &result[0];
    assert!(!first_line.spans.is_empty());
    let style = first_line.spans[0].style;
    assert_eq!(style.fg, Some(Color::Blue));
    assert!(style.add_modifier.bold);
}

#[test]
fn h3_has_magenta_bold_style() {
    let result = render_markdown("### Header Three");
    assert!(!result.is_empty());
    let first_line = &result[0];
    assert!(!first_line.spans.is_empty());
    let style = first_line.spans[0].style;
    assert_eq!(style.fg, Some(Color::Magenta));
    assert!(style.add_modifier.bold);
}

#[test]
fn bold_text_has_bold_modifier() {
    let result = render_markdown("**bold text**");
    assert!(!result.is_empty());
    let found_bold = result
        .iter()
        .any(|line| line.spans.iter().any(|span| span.style.add_modifier.bold));
    assert!(found_bold);
}

#[test]
fn italic_text_has_italic_modifier() {
    let result = render_markdown("*italic text*");
    assert!(!result.is_empty());
    let found_italic = result
        .iter()
        .any(|line| line.spans.iter().any(|span| span.style.add_modifier.italic));
    assert!(found_italic);
}

#[test]
fn strikethrough_text_has_crossed_out_modifier() {
    let result = render_markdown("~~strikethrough~~");
    assert!(!result.is_empty());
    let found_strikethrough = result
        .iter()
        .any(|line| line.spans.iter().any(|span| span.style.add_modifier.crossed_out));
    assert!(found_strikethrough);
}

#[test]
fn inline_code_has_green_color_and_backticks() {
    let result = render_markdown("Use `code` here");
    let found_code = result.iter().any(|line| {
        line.spans
            .iter()
            .any(|span| span.style.fg == Some(Color::Green) && span.content.contains("`code`"))
    });
    assert!(found_code);
}

#[test]
fn code_block_has_language_indicator() {
    let result = render_markdown("```rust\nlet x = 1;\n```");
    let has_lang_indicator = result
        .iter()
        .any(|line| line.spans.iter().any(|span| span.content.contains("rust")));
    assert!(has_lang_indicator);
}

#[test]
fn code_block_has_border_characters() {
    let result = render_markdown("```\ncode\n```");
    let has_top_border = result
        .iter()
        .any(|line| line.spans.iter().any(|span| span.content.contains("┌")));
    let has_bottom_border = result
        .iter()
        .any(|line| line.spans.iter().any(|span| span.content.contains("└")));
    assert!(has_top_border);
    assert!(has_bottom_border);
}

#[test]
fn code_block_content_has_green_color() {
    let result = render_markdown("```\ncode line\n```");
    let has_green_code = result.iter().any(|line| {
        line.spans
            .iter()
            .any(|span| span.style.fg == Some(Color::Green) && span.content.contains("code"))
    });
    assert!(has_green_code);
}

#[test]
fn unordered_list_has_bullet_points() {
    let result = render_markdown("- item one\n- item two");
    let has_bullets = result
        .iter()
        .any(|line| line.spans.iter().any(|span| span.content.contains("•")));
    assert!(has_bullets);
}

#[test]
fn ordered_list_has_numbers() {
    let result = render_markdown("1. first\n2. second");
    let has_number_one = result
        .iter()
        .any(|line| line.spans.iter().any(|span| span.content.contains("1.")));
    let has_number_two = result
        .iter()
        .any(|line| line.spans.iter().any(|span| span.content.contains("2.")));
    assert!(has_number_one);
    assert!(has_number_two);
}

#[test]
fn list_bullets_are_yellow() {
    let result = render_markdown("- item");
    let has_yellow_bullet = result.iter().any(|line| {
        line.spans
            .iter()
            .any(|span| span.style.fg == Some(Color::Yellow) && span.content.contains("•"))
    });
    assert!(has_yellow_bullet);
}

#[test]
fn blockquote_has_vertical_bar() {
    let result = render_markdown("> quoted text");
    let has_quote_bar = result
        .iter()
        .any(|line| line.spans.iter().any(|span| span.content.contains("│")));
    assert!(has_quote_bar);
}

#[test]
fn blockquote_text_is_italic_gray() {
    let result = render_markdown("> quoted text");
    let has_italic_gray = result.iter().any(|line| {
        line.spans
            .iter()
            .any(|span| span.style.fg == Some(Color::Gray) && span.style.add_modifier.italic)
    });
    assert!(has_italic_gray);
}

#[test]
fn link_has_blue_underlined_style() {
    let result = render_markdown("[link text](http://example.com)");
    let has_link_style = result.iter().any(|line| {
        line.spans
            .iter()
            .any(|span| span.style.fg == Some(Color::Blue) && span.style.add_modifier.underlined)
    });
    assert!(has_link_style);
}

#[test]
fn horizontal_rule_renders() {
    let result = render_markdown("---");
    let has_rule = result
        .iter()
        .any(|line| line.spans.iter().any(|span| span.content.contains("────")));
    assert!(has_rule);
}

#[test]
fn horizontal_rule_is_dark_gray() {
    let result = render_markdown("---");
    let has_dark_gray_rule = result.iter().any(|line| {
        line.spans
            .iter()
            .any(|span| span.style.fg == Some(Color::DarkGray) && span.content.contains("────"))
    });
    assert!(has_dark_gray_rule);
}

#[test]
fn multiple_paragraphs_separated_by_empty_lines() {
    let result = render_markdown("First paragraph.\n\nSecond paragraph.");
    assert!(result.len() >= 3);
}

#[test]
fn nested_formatting_works() {
    let result = render_markdown("**bold and *italic* text**");
    let has_bold = result
        .iter()
        .any(|line| line.spans.iter().any(|span| span.style.add_modifier.bold));
    assert!(has_bold);
}

#[test]
fn trailing_empty_lines_removed() {
    let result = render_markdown("Text\n\n\n");
    if let Some(last) = result.last() {
        assert!(!last.spans.is_empty() || result.len() == 1);
    }
}

#[test]
fn mention_is_bold_and_cyan() {
    let result = render_markdown("Hello @john.doe!");
    let has_mention_style = result.iter().any(|line| {
        line.spans.iter().any(|span| {
            span.content.contains("@john.doe")
                && span.style.fg == Some(Color::Cyan)
                && span.style.add_modifier.bold
        })
    });
    assert!(has_mention_style);
}

#[test]
fn mention_with_underscores_and_hyphens() {
    let result = render_markdown("CC @jane_doe-smith");
    let has_mention = result
        .iter()
        .any(|line| line.spans.iter().any(|span| span.content.contains("@jane_doe-smith")));
    assert!(has_mention);
}

#[test]
fn multiple_mentions_highlighted() {
    let result = render_markdown("Hey @alice and @bob!");
    let mention_count: usize = result
        .iter()
        .flat_map(|line| line.spans.iter())
        .filter(|span| {
            span.content.starts_with('@')
                && span.style.fg == Some(Color::Cyan)
                && span.style.add_modifier.bold
        })
        .count();
    assert_eq!(mention_count, 2);
}

#[test]
fn lone_at_sign_not_styled_as_mention() {
    let result = render_markdown("Email me @ example.com");
    let has_styled_lone_at = result.iter().any(|line| {
        line.spans.iter().any(|span| {
            span.content == "@" && span.style.fg == Some(Color::Cyan) && span.style.add_modifier.bold
        })
    });
    assert!(!has_styled_lone_at);
}

#[test]
fn text_around_mention_preserved() {
    let result = render_markdown("Before @user after");
    let spans: Vec<_> = result.iter().flat_map(|line| line.spans.iter()).collect();
    let has_before = spans.iter().any(|s| s.content.contains("Before"));
    let has_mention = spans.iter().any(|s| s.content.contains("@user"));
    let has_after = spans.iter().any(|s| s.content.contains("after"));
    assert!(has_before);
    assert!(has_mention);
    assert!(has_after);
}

#[test]
fn mentions_split_exactly_into_three_spans() {
    let spans = style_with_mentions("Before @user after", Style::new());
    let texts: Vec<&str> = spans.iter().map(|s| s.content.as_str()).collect();
    assert_eq!(texts, vec!["Before ", "@user", " after"]);
    assert_eq!(spans[1].style.fg, Some(Color::Cyan));
    assert!(spans[1].style.add_modifier.bold);
    assert_eq!(spans[0].style, Style::new());
}

#[test]
fn mention_text_concatenates_back_to_input() {
    let input = "a@b @ c@@d_e.f-g! ünï@çødé";
    let spans = style_with_mentions(input, Style::new());
    let joined: String = spans.iter().map(|s| s.content.as_str()).collect();
    assert_eq!(joined, input);
}

#[test]
fn lone_at_is_its_own_plain_span() {
    let spans = style_with_mentions("x @ y", Style::new());
    let texts: Vec<&str> = spans.iter().map(|s| s.content.as_str()).collect();
    assert_eq!(texts, vec!["x ", "@", " y"]);
    assert_eq!(spans[1].style, Style::new());
}

#[test]
fn ordered_list_starting_at_three_counts_up() {
    let result = render_markdown("3. a\n4. b");
    let first: Vec<&str> = result[0].spans.iter().map(|s| s.content.as_str()).collect();
    let second: Vec<&str> = result[1].spans.iter().map(|s| s.content.as_str()).collect();
    assert_eq!(first, vec!["3. ", "a"]);
    assert_eq!(second, vec!["4. ", "b"]);
}

#[test]
fn nested_list_items_are_indented() {
    let result = render_markdown("- a\n  - b");
    let has_indented = result
        .iter()
        .any(|line| line.spans.iter().any(|span| span.content == "  • "));
    assert!(has_indented);
}

#[test]
fn code_block_lines_get_bar_prefix() {
    let result = render_markdown("```\none\ntwo\n```");
    let texts: Vec<String> = result
        .iter()
        .map(|l| l.spans.iter().map(|s| s.content.as_str()).collect::<String>())
        .collect();
    assert_eq!(texts, vec!["┌───", "│ one", "│ two", "└───"]);
}
