use print_core::decimal::Decimal;
use print_core::dispatch::last_word;
use print_core::printers::{parse_lpstat, parse_powershell};
use print_core::text::{
    chars_of, has_substring, replace_char, split_after_first, split_lines, split_second_field,
    split_tokens,
    string_of, trim_class, CharClass,
};

/// A small generator of repeatable pseudo-random numbers.
struct Generator {
    state: u64,
}

impl Generator {
    fn new(seed: u64) -> Generator {
        Generator { state: seed }
    }

    fn next(&mut self, bound: usize) -> usize {
        self.state = self.state.wrapping_mul(6364136223846793005).wrapping_add(1442695040888963407);
        ((self.state >> 33) as usize) % bound
    }

    fn text(&mut self, pieces: &[&str], longest: usize) -> String {
        let count = self.next(longest + 1);
        let mut out = String::new();
        for _ in 0..count {
            out.push_str(pieces[self.next(pieces.len())]);
        }
        out
    }
}

const PIECES: [&str; 22] = [
    "\n", "\r", "\r\n", " ", "\t", ":", "_", "\"", ",", "a", "B", "printer ", "printer",
    "default destination:", "system ", "\"Name\"", "Name", "\u{a0}", "\u{2003}", "é", "HP_1", "::",
];

fn strings(rows: Vec<Vec<char>>) -> Vec<String> {
    rows.iter().map(|row| row.iter().collect()).collect()
}

#[test]
fn generated_text_scans_as_with_the_standard_library() {
    let mut generator = Generator::new(7);
    for _ in 0..4000 {
        let sample = generator.text(&PIECES, 12);
        let v = chars_of(&sample);
        assert_eq!(string_of(&v), sample);
        let lines: Vec<String> = sample.lines().map(|l| l.to_string()).collect();
        assert_eq!(strings(split_lines(&v)), lines, "{:?}", sample);
        let words: Vec<String> = sample.split_whitespace().map(|w| w.to_string()).collect();
        assert_eq!(strings(split_tokens(&v)), words, "{:?}", sample);
        assert_eq!(last_word(&sample), sample.split_whitespace().last().map(|w| w.to_string()));
        assert_eq!(string_of(&trim_class(&v, CharClass::Whitespace)), sample.trim(), "{:?}", sample);
        assert_eq!(string_of(&trim_class(&v, CharClass::Only(','))), sample.trim_matches(','));
        assert_eq!(string_of(&trim_class(&v, CharClass::Only('"'))), sample.trim_matches('"'));
        assert_eq!(
            split_second_field(&v, ':').map(|f| string_of(&f)),
            sample.split(':').nth(1).map(|f| f.to_string()),
            "{:?}",
            sample
        );
        assert_eq!(
            split_after_first(&v, ':').map(|f| string_of(&f)),
            sample.split_once(':').map(|(_, rest)| rest.to_string()),
            "{:?}",
            sample
        );
        assert_eq!(string_of(&replace_char(&v, '_', ' ')), sample.replace('_', " "));
        let pattern = generator.text(&PIECES, 2);
        assert_eq!(has_substring(&v, &chars_of(&pattern)), sample.contains(&pattern), "{:?} {:?}", sample, pattern);
    }
}

fn lpstat_by_hand(stdout: &str) -> Vec<(String, String, bool)> {
    let mut printers: Vec<(String, String, bool)> = Vec::new();
    let mut default_printer: Option<String> = None;
    for line in stdout.lines() {
        if line.starts_with("printer ") {
            let parts: Vec<&str> = line.split_whitespace().collect();
            if parts.len() >= 2 {
                let printer_id = parts[1].to_string();
                printers.push((printer_id.clone(), printer_id.replace('_', " "), false));
            }
        } else if line.contains("default destination:") {
            if let Some((_, name)) = line.split_once(':') {
                default_printer = Some(name.trim().to_string());
            }
        }
    }
    if let Some(default) = default_printer {
        for printer in &mut printers {
            if printer.0 == default {
                printer.2 = true;
                break;
            }
        }
    }
    if printers.iter().all(|p| !p.2) && !printers.is_empty() {
        printers[0].2 = true;
    }
    printers
}

fn powershell_by_hand(stdout: &str) -> Vec<(String, String, bool)> {
    let mut printers: Vec<(String, String, bool)> = Vec::new();
    if stdout.contains("Name") {
        for line in stdout.lines() {
            if line.contains("\"Name\"") {
                if let Some(name_part) = line.split(':').nth(1) {
                    let name = name_part.trim().trim_matches(',').trim_matches('"').to_string();
                    if !name.is_empty() {
                        printers.push((name.clone(), name.replace('_', " "), false));
                    }
                }
            }
        }
    }
    if !printers.is_empty() {
        printers[0].2 = true;
    }
    printers
}

#[test]
fn generated_listings_read_as_with_the_standard_library() {
    let mut generator = Generator::new(11);
    let pieces = [
        "\n", "\r\n", " ", ":", "_", "\"", ",", "A", "B", "printer ", "printer A", "printer B_2 x",
        "system default destination: ", "default destination:", "\"Name\":", "\"Name\"", " \"A\",",
        "B_2", "HP", "\t",
    ];
    for _ in 0..4000 {
        let sample = generator.text(&pieces, 14);
        let listed: Vec<(String, String, bool)> = parse_lpstat(&sample)
            .into_iter()
            .map(|p| (p.id, p.display_name, p.is_default))
            .collect();
        assert_eq!(listed, lpstat_by_hand(&sample), "{:?}", sample);
        assert_eq!(listed.iter().filter(|p| p.2).count(), if listed.is_empty() { 0 } else { 1 });
        let listed: Vec<(String, String, bool)> = parse_powershell(&sample)
            .into_iter()
            .map(|p| (p.id, p.display_name, p.is_default))
            .collect();
        assert_eq!(listed, powershell_by_hand(&sample), "{:?}", sample);
        assert_eq!(listed.iter().filter(|p| p.2).count(), if listed.is_empty() { 0 } else { 1 });
    }
}

#[test]
fn generated_decimals_print_as_floating_point_numbers() {
    let mut generator = Generator::new(13);
    for _ in 0..4000 {
        let thousandths = generator.next(1_000_000) as u32;
        let expected = format!("{}", thousandths as f64 / 1000.0);
        assert_eq!(Decimal::from_thousandths(thousandths).to_text(), expected);
    }
    for tenths in 0..5000u32 {
        let expected = format!("{}", tenths as f32 / 10.0);
        assert_eq!(Decimal::from_thousandths(tenths * 100).to_text(), expected);
    }
}
