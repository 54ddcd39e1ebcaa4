use locker::country_list::{
    flip_ban, initialize, string_to_byte_array, CountryBanList, ErrorCode, FlipBan, Initialize,
};

fn fresh_banlist(codes: Vec<[u8; 2]>) -> CountryBanList {
    let mut accs = Initialize {
        country_banlist: CountryBanList { countries: Vec::new(), admin: 0 },
        admin: 1,
    };
    initialize(&mut accs, codes).unwrap();
    accs.country_banlist
}

#[test]
fn string_to_byte_array_takes_first_two_bytes() {
    assert_eq!(string_to_byte_array("US"), [85, 83]);
    assert_eq!(string_to_byte_array("DEX"), [68, 69]);
}

#[test]
fn initialize_sorts_and_dedups() {
    let list = fresh_banlist(vec![[85, 83], [68, 69], [85, 83], [65, 84]]);
    assert_eq!(list.countries.len(), 3);
    assert_eq!(list.countries[0].code, [65, 84]);
    assert_eq!(list.countries[1].code, [68, 69]);
    assert_eq!(list.countries[2].code, [85, 83]);
    assert_eq!(list.admin, 1);
    assert!(list.is_country_valid("US"));
    assert!(list.is_country_valid("DE"));
    assert!(list.is_country_valid("AT"));
}

#[test]
fn is_country_valid_rejects_absent() {
    let list = fresh_banlist(vec![[85, 83]]);
    assert!(!list.is_country_valid("ZZ"));
}

#[test]
fn initialize_empty_registry() {
    let list = fresh_banlist(Vec::new());
    assert_eq!(list.countries.len(), 0);
    assert!(!list.is_country_valid("US"));
}

#[test]
fn is_country_valid_reads_first_two_bytes() {
    let list = fresh_banlist(vec![[85, 83]]);
    // only the first two bytes of the string name the country
    assert!(list.is_country_valid("USA"));
}

#[test]
fn flip_ban_bans_and_unbans() {
    let list = fresh_banlist(vec![[85, 83], [68, 69]]);
    let mut accs = FlipBan { country_banlist: list, admin: 1 };
    assert_eq!(flip_ban(&mut accs, "US".to_string(), true), Ok(()));
    assert!(!accs.country_banlist.is_country_valid("US"));
    assert!(accs.country_banlist.is_country_valid("DE"));
    assert_eq!(flip_ban(&mut accs, "US".to_string(), false), Ok(()));
    assert!(accs.country_banlist.is_country_valid("US"));
}

#[test]
fn flip_ban_unknown_country() {
    let list = fresh_banlist(vec![[85, 83]]);
    let mut accs = FlipBan { country_banlist: list, admin: 1 };
    assert_eq!(
        flip_ban(&mut accs, "ZZ".to_string(), true),
        Err(ErrorCode::UnknownCountry)
    );
    assert!(accs.country_banlist.is_country_valid("US"));
}

#[test]
fn flip_ban_rejects_non_admin() {
    let list = fresh_banlist(vec![[85, 83]]);
    let mut accs = FlipBan { country_banlist: list, admin: 99 };
    assert_eq!(
        flip_ban(&mut accs, "US".to_string(), true),
        Err(ErrorCode::Unauthorized)
    );
    assert!(accs.country_banlist.is_country_valid("US"));
}
