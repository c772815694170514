use tasklist::models::database::{TaskRow, UserRow};
use tasklist::models::utilities::{parse_color_hex, parse_uuid};
use tasklist::models::{Task, TaskPriority, User};
use tasklist::timestamps::Timestamp;
use tasklist::validators::{validate_color_hex, validate_uuid};

struct Draws(u64);

impl Draws {
    fn next(&mut self) -> u64 {
        self.0 = self.0.wrapping_mul(6364136223846793005).wrapping_add(1442695040888963407);
        self.0 >> 11
    }

    fn below(&mut self, bound: u64) -> u64 {
        self.next() % bound
    }

    fn wide(&mut self) -> u128 {
        ((self.next() as u128) << 75) ^ ((self.next() as u128) << 30) ^ (self.next() as u128)
    }
}

fn is_hex(c: char) -> bool {
    matches!(c, '0'..='9' | 'a'..='f' | 'A'..='F')
}

fn is_hyphenated(chars: &[char]) -> bool {
    chars.len() == 36
        && chars.iter().enumerate().all(|(i, c)| {
            if i == 8 || i == 13 || i == 18 || i == 23 {
                *c == '-'
            } else {
                is_hex(*c)
            }
        })
}

fn stands_for_an_identifier(text: &str) -> bool {
    let chars: Vec<char> = text.chars().collect();
    let simple = chars.len() == 32 && chars.iter().all(|c| is_hex(*c));
    let urn = chars.len() == 45
        && chars[..9].iter().collect::<String>() == "urn:uuid:"
        && is_hyphenated(&chars[9..]);
    simple || is_hyphenated(&chars) || urn
}

fn is_a_colour(text: &str) -> bool {
    let chars: Vec<char> = text.chars().collect();
    (chars.len() == 4 || chars.len() == 7)
        && chars[0] == '#'
        && chars[1..].iter().all(|c| is_hex(*c))
}

fn hyphenated(value: u128) -> String {
    let digits = format!("{:032x}", value);
    format!(
        "{}-{}-{}-{}-{}",
        &digits[0..8],
        &digits[8..12],
        &digits[12..16],
        &digits[16..20],
        &digits[20..32]
    )
}

fn disturbed(draws: &mut Draws, text: &str) -> String {
    let alphabet: Vec<char> = "0123456789abcdefABCDEFgG-#: urnid{}\u{e9}\n".chars().collect();
    let mut chars: Vec<char> = text.chars().collect();
    let changes = 1 + draws.below(3);
    for _ in 0..changes {
        let pick = alphabet[draws.below(alphabet.len() as u64) as usize];
        match draws.below(3) {
            0 if !chars.is_empty() => {
                let at = draws.below(chars.len() as u64) as usize;
                chars[at] = pick;
            }
            1 if !chars.is_empty() => {
                let at = draws.below(chars.len() as u64) as usize;
                chars.remove(at);
            }
            _ => {
                let at = draws.below(chars.len() as u64 + 1) as usize;
                chars.insert(at, pick);
            }
        }
    }
    chars.into_iter().collect()
}

#[test]
fn identifier_texts_are_accepted_as_stated() {
    let mut draws = Draws(7);
    for _ in 0..4000 {
        let value = draws.wide();
        let written = hyphenated(value);
        let forms = [
            written.clone(),
            written.to_uppercase(),
            written.replace('-', ""),
            format!("urn:uuid:{}", written),
        ];
        for form in forms.iter() {
            assert_eq!(parse_uuid(form), Ok(value), "{:?}", form);
            let chars: Vec<char> = form.chars().collect();
            assert_eq!(validate_uuid(form).is_ok(), is_hyphenated(&chars), "{:?}", form);
            let other = disturbed(&mut draws, form);
            let chars: Vec<char> = other.chars().collect();
            assert_eq!(validate_uuid(&other).is_ok(), is_hyphenated(&chars), "{:?}", other);
            assert_eq!(parse_uuid(&other).is_ok(), stands_for_an_identifier(&other), "{:?}", other);
        }
    }
}

#[test]
fn identifiers_are_written_in_lower_case_with_hyphens() {
    let mut draws = Draws(11);
    for _ in 0..2000 {
        let value = draws.wide();
        let row = UserRow::from_user(User {
            uuid: value,
            username: String::new(),
            password_hash: String::new(),
            nickname: String::new(),
        });
        assert_eq!(row.uuid, hyphenated(value));
        assert_eq!(parse_uuid(&row.uuid), Ok(value));
    }
    for value in [0, 1, u128::MAX, 1 << 127, 0xf << 76] {
        let row = UserRow::from_user(User {
            uuid: value,
            username: String::new(),
            password_hash: String::new(),
            nickname: String::new(),
        });
        assert_eq!(row.uuid, hyphenated(value));
    }
}

#[test]
fn colours_are_accepted_as_stated() {
    let mut draws = Draws(13);
    let digits: Vec<char> = "0123456789abcdefABCDEF".chars().collect();
    for _ in 0..4000 {
        let length = if draws.below(2) == 0 { 3 } else { 6 };
        let mut colour = String::from("#");
        for _ in 0..length {
            colour.push(digits[draws.below(digits.len() as u64) as usize]);
        }
        assert!(validate_color_hex(&colour).is_ok(), "{:?}", colour);
        assert_eq!(parse_color_hex(&colour), Ok(colour.clone()));
        let other = disturbed(&mut draws, &colour);
        assert_eq!(validate_color_hex(&other).is_ok(), is_a_colour(&other), "{:?}", other);
        assert_eq!(parse_color_hex(&other).is_ok(), is_a_colour(&other), "{:?}", other);
    }
}

#[test]
fn points_in_time_are_read_back_from_their_texts() {
    let mut draws = Draws(17);
    let span = (253_402_300_799i64 + 62_167_219_200i64 + 1) as u64;
    for _ in 0..4000 {
        let seconds = -62_167_219_200i64 + draws.below(span) as i64;
        let nanoseconds = match draws.below(4) {
            0 => 0,
            1 => draws.below(1000) as u32 * 1_000_000,
            2 => draws.below(1_000_000) as u32 * 1_000,
            _ => draws.below(1_000_000_000) as u32,
        };
        let point = Timestamp::new(seconds, nanoseconds).unwrap();
        let text = point.to_rfc3339();
        assert_eq!(Timestamp::parse_from_rfc3339(&text), Ok(point), "{}", text);
    }
}

#[test]
fn tags_are_read_back_from_their_texts() {
    let mut draws = Draws(19);
    let alphabet: Vec<char> =
        "ab \"\\/\u{8}\u{c}\n\r\t\u{0}\u{1f}\u{7f}\u{e9}\u{2028}\u{1f600}[]{},:'".chars().collect();
    for _ in 0..2000 {
        let mut tags = Vec::new();
        for _ in 0..draws.below(4) {
            let mut tag = String::new();
            for _ in 0..draws.below(6) {
                tag.push(alphabet[draws.below(alphabet.len() as u64) as usize]);
            }
            tags.push(tag);
        }
        let task = Task {
            uuid: draws.wide(),
            content: String::new(),
            priority: TaskPriority::LOW,
            tags: Some(tags),
            is_complete: false,
            parent_list_uuid: draws.wide(),
            creation_information_uuid: draws.wide(),
        };
        let row: TaskRow = TaskRow::from_task(task.clone()).unwrap();
        assert_eq!(Task::from_task_row(row), Ok(task));
    }
}
