use zellij_server::palette::load_palette;
use zellij_server::registry::ClientRegistry;
use zellij_utils::zellij_tile::data::ThemeHue;

/// A channel double that keeps what it was given.
type Log = Vec<String>;

fn send(reg: &mut ClientRegistry<Log>, id: u16, msg: &str) -> bool {
    match reg.checkout(id) {
        Some(mut log) => {
            log.push(msg.to_string());
            reg.register(id, log);
            true
        }
        None => false,
    }
}

fn sent(reg: &ClientRegistry<Log>, id: u16) -> Log {
    reg.sender(id).unwrap().clone()
}

#[test]
fn registered_client_receives_message() {
    let mut reg = ClientRegistry::new();
    reg.register(1, Log::new());
    assert!(send(&mut reg, 1, "hello"));
    assert_eq!(sent(&reg, 1), vec!["hello".to_string()]);
    assert!(reg.is_registered(1));
    assert_eq!(reg.len(), 1);
}

#[test]
fn checkout_hands_out_the_registered_channel() {
    let mut reg = ClientRegistry::new();
    reg.register(5, vec!["mark".to_string()]);
    reg.register(6, Log::new());
    assert_eq!(reg.checkout(5), Some(vec!["mark".to_string()]));
    assert!(!reg.is_registered(5));
    assert!(reg.is_registered(6));
    assert_eq!(reg.len(), 1);
}

#[test]
fn messages_arrive_in_order() {
    let mut reg = ClientRegistry::new();
    reg.register(3, Log::new());
    assert!(send(&mut reg, 3, "one"));
    assert!(send(&mut reg, 3, "two"));
    assert_eq!(sent(&reg, 3), vec!["one".to_string(), "two".to_string()]);
}

#[test]
fn unregistered_client_receives_nothing() {
    let mut reg: ClientRegistry<Log> = ClientRegistry::new();
    reg.register(7, Log::new());
    reg.unregister(7);
    assert!(!send(&mut reg, 7, "lost"));
    assert_eq!(reg.checkout(7), None);
    assert!(!reg.is_registered(7));
    assert!(reg.sender(7).is_none());
    reg.unregister(7);
    assert_eq!(reg.len(), 0);
}

#[test]
fn messages_go_only_to_their_client() {
    let mut reg = ClientRegistry::new();
    reg.register(1, Log::new());
    reg.register(2, Log::new());
    assert!(send(&mut reg, 2, "for b"));
    assert!(!send(&mut reg, 3, "nobody"));
    assert!(sent(&reg, 1).is_empty());
    assert_eq!(sent(&reg, 2), vec!["for b".to_string()]);
    assert_eq!(reg.len(), 2);
}

#[test]
fn registering_again_replaces_sender() {
    let mut reg = ClientRegistry::new();
    reg.register(4, vec!["earlier".to_string()]);
    reg.register(4, Log::new());
    assert!(send(&mut reg, 4, "x"));
    assert_eq!(sent(&reg, 4), vec!["x".to_string()]);
    assert_eq!(reg.len(), 1);
}

#[test]
fn palette_is_the_dark_default() {
    let p = load_palette();
    assert_eq!(p.theme_hue, ThemeHue::Dark);
    assert_eq!(p, zellij_utils::shared::default_palette());
}
