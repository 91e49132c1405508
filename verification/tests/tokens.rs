use giftlist::data::FormGift;
use giftlist::db::DbConn;
use giftlist::data::{List, User};
use giftlist::ident::is_placeholder_id;
use giftlist::reconcile::reconcile;
use giftlist::token::{new_auth_token, random_token_bytes, token_text, TOKEN_BYTES};

#[test]
fn hex_of_given_bytes() {
    assert_eq!(token_text(&vec![1, 2, 3, 15, 16]), "0102030f10");
    assert_eq!(token_text(&vec![0x00, 0xff, 0xa5, 0x5a]), "00ffa55a");
    assert_eq!(token_text(&vec![]), "");
    assert_eq!(token_text(&"Hello world!".as_bytes().to_vec()), "48656c6c6f20776f726c6421");
}

#[test]
fn hex_is_two_lower_case_digits_for_each_byte() {
    let bytes: Vec<u8> = (0..=255u8).collect();
    let text = token_text(&bytes);
    assert_eq!(text.len(), 512);
    let digits = "0123456789abcdef".as_bytes();
    for (i, b) in bytes.iter().enumerate() {
        assert_eq!(text.as_bytes()[2 * i], digits[(*b / 16) as usize]);
        assert_eq!(text.as_bytes()[2 * i + 1], digits[(*b % 16) as usize]);
    }
}

#[test]
fn token_bytes_have_the_length_of_a_token() {
    assert_eq!(TOKEN_BYTES, 256);
    assert_eq!(random_token_bytes().len(), 256);
}

#[test]
fn tokens_are_long_hexadecimal_and_different() {
    let a = new_auth_token();
    let b = new_auth_token();
    assert_eq!(a.len(), 512);
    assert!(a.chars().all(|c| c.is_ascii_digit() || ('a'..='f').contains(&c)));
    assert_ne!(a, b);
}

#[test]
fn placeholders_begin_with_the_prefix() {
    assert!(is_placeholder_id(&"newRow-1".to_string()));
    assert!(is_placeholder_id(&"newRow-".to_string()));
    assert!(!is_placeholder_id(&"newRow".to_string()));
    assert!(!is_placeholder_id(&"".to_string()));
    assert!(!is_placeholder_id(&"NewRow-1".to_string()));
    assert!(!is_placeholder_id(&"xnewRow-1".to_string()));
    assert!(!is_placeholder_id(&"3f1c0a52-9d6e-4b7a-8c21-5e0f9a7b6c4d".to_string()));
    assert!(is_placeholder_id(&"newRow-\u{e9}t\u{e9}".to_string()));
    assert!(!is_placeholder_id(&"\u{e9}ewRow-1".to_string()));
}

#[test]
fn minted_identifiers_are_hyphenated_lower_case_hex() {
    let mut conn = DbConn::init_db();
    conn.create_user(
        User {
            uuid: "u1".to_string(),
            email: "ann@example.com".to_string(),
            name: "ann".to_string(),
            can_create: true,
            is_me: false,
        },
        "t1".to_string(),
    )
    .unwrap();
    conn.create_list(List {
        uuid: "l1".to_string(),
        name: "Birthday".to_string(),
        owner: "u1".to_string(),
        im_owner: true,
    })
    .unwrap();
    let gifts = vec![
        FormGift {
            uuid: "".to_string(),
            url: "http://a".to_string(),
            comment: "a".to_string(),
            alternate_to_uuid: "".to_string(),
        },
        FormGift {
            uuid: "newRow-1".to_string(),
            url: "http://b".to_string(),
            comment: "b".to_string(),
            alternate_to_uuid: "".to_string(),
        },
    ];
    assert!(reconcile(&mut conn, &"l1".to_string(), &"u1".to_string(), &gifts).is_ok());
    let rows = conn.gift_rows();
    assert_eq!(rows.len(), 2);
    assert_ne!(rows[0].gift_uuid, rows[1].gift_uuid);
    for row in rows.iter() {
        let id = row.gift_uuid.as_bytes();
        assert_eq!(id.len(), 36);
        for (i, c) in id.iter().enumerate() {
            if i == 8 || i == 13 || i == 18 || i == 23 {
                assert_eq!(*c, b'-');
            } else {
                assert!(c.is_ascii_digit() || (b'a'..=b'f').contains(c));
            }
        }
        assert!(!is_placeholder_id(&row.gift_uuid));
    }
}
