use steam_mobile::steamid::SteamID;

// We are using this for our tests:
// https://steamidfinder.com/lookup/76561198092541763/
fn get_steam64_odd() -> u64 {
    76_561_198_092_541_763
}

fn get_steam3() -> u64 {
    132_276_035
}

fn get_steam3_unformatted() -> &'static str {
    "[U:1:132276035]"
}

fn get_steam64_even() -> u64 {
    76561197984835396
}

fn get_steam3_even() -> u64 {
    24569668
}

#[test]
fn steamid_from_steam64() {
    let steamid = SteamID::from_steam64(get_steam64_odd());
    assert_eq!(steamid.to_steam64(), get_steam64_odd())
}

#[test]
fn steamid_to_steam64() {
    let steamid = SteamID::from_steam64(get_steam64_odd());
    assert_eq!(steamid.to_steam64(), get_steam64_odd())
}

#[test]
fn steamid_from_steam3_mine() {
    let steamid = SteamID::from_steam3(get_steam3_even() as u32, None, None);
    assert_eq!(steamid.to_steam64(), get_steam64_even())
}

#[test]
fn steamid64_to_steam3_mine() {
    let steamid = SteamID::from_steam64(get_steam64_even());
    assert_eq!(steamid.to_steam3(), get_steam3_even())
}

#[test]
fn steamid_to_steam3() {
    let steamid = SteamID::from_steam64(get_steam64_odd());
    let steam32 = steamid.to_steam3();
    assert_eq!(steam32, get_steam3())
}

#[test]
fn steamid_from_steam3() {
    let steamid = SteamID::from_steam3(get_steam3() as u32, None, None);
    assert_eq!(steamid.to_steam64(), get_steam64_odd())
}

#[test]
fn steam64_parse() {
    let formatted_steamid = format!("text {} xxaasssddff", get_steam64_odd());
    let steamid = SteamID::parse(&formatted_steamid).unwrap();
    assert_eq!(steamid.to_steam64(), get_steam64_odd());
}

#[test]
fn steam3_parse() {
    let formatted_steamid = format!("text {} xxaasssddff", get_steam3_unformatted());
    let steamid = SteamID::parse(&formatted_steamid).unwrap();
    assert_eq!(steamid.to_steam64(), get_steam64_odd());
}

#[test]
fn parse_plain_text_yields_nothing() {
    assert!(SteamID::parse("no identifier in here 123456").is_none());
}

#[test]
fn steam3_parse_prefers_bracketed_form() {
    let text = format!("{} and 76561198092541763", get_steam3_unformatted());
    let steamid = SteamID::parse(&text).unwrap();
    assert_eq!(steamid.to_steam64(), get_steam64_odd());
}
