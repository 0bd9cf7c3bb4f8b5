use nnk::auth::{
    validate_password, validate_username, Argon2PasswordService, AuthError, JwtTokenService,
    PasswordService, TokenService,
};
use nnk::ids::UserId;
use nnk::rng::GameRng;

#[test]
fn username_rules() {
    assert!(validate_username("ab").is_err());
    assert!(validate_username("stalker_1").is_ok());
    assert!(validate_username("bad name").is_err());
    assert!(validate_username("Сталкер01").is_ok());
    assert!(validate_username("Илья").is_ok());
}

#[test]
fn password_rules() {
    assert!(validate_password("short").is_err());
    assert!(validate_password("longenough").is_ok());
}

#[test]
fn issue_verify_roundtrip() {
    let svc = JwtTokenService::new("secret", 1);
    let uid = UserId::new();
    let token = svc.issue(uid, "stalker").unwrap();
    let (back, name) = svc.verify(&token).unwrap();
    assert_eq!(back, uid);
    assert_eq!(name, "stalker");
}

#[test]
fn bad_token() {
    let svc = JwtTokenService::new("secret", 1);
    assert_eq!(svc.verify("not.a.jwt").unwrap_err(), AuthError::InvalidToken);
}

#[test]
fn wrong_secret() {
    let a = JwtTokenService::new("a", 1);
    let b = JwtTokenService::new("b", 1);
    let token = a.issue(UserId::new(), "x").unwrap();
    assert!(b.verify(&token).is_err());
}

#[test]
fn hash_and_verify() {
    let svc = Argon2PasswordService;
    let hash = svc.hash("zonezone1").unwrap();
    assert!(svc.verify("zonezone1", &hash).is_ok());
    assert_eq!(svc.verify("wrongpass", &hash).unwrap_err(), AuthError::InvalidCredentials);
}

#[test]
fn deterministic_sequence() {
    let mut a = GameRng::from_seed(42);
    let mut b = GameRng::from_seed(42);
    let seq_a: Vec<u8> = (0..20).map(|_| a.d20()).collect();
    let seq_b: Vec<u8> = (0..20).map(|_| b.d20()).collect();
    assert_eq!(seq_a, seq_b);
}

#[test]
fn dice_ranges() {
    let mut r = GameRng::from_seed(1);
    for _ in 0..100 {
        let d = r.d6();
        assert!((1..=6).contains(&d));
        let d20 = r.d20();
        assert!((1..=20).contains(&d20));
        let (t, u) = r.ccc_parts();
        assert_eq!(t % 10, 0);
        assert!(t <= 90);
        assert!(u <= 9);
    }
}
