use ffb_structs::web::auth::JwtUser;
use ffb_structs::web::controllers::{self, LoginForm, SignUpForm, UserActivation};
use ffb_structs::web::entities::navaccess::Model as NavAccess;
use ffb_structs::web::entities::user::Model as User;
use ffb_structs::web::error::ApplicationError;
use ffb_structs::web::middleware::{CookieChecker, CookieDecision};
use ffb_structs::web::pages;
use magic_crypt::MagicCryptTrait;

#[test]
fn web_error_status_and_redirections() {
    assert_eq!(ApplicationError::InternalError.status_code(), 500);
    assert_eq!(ApplicationError::DatabaseError("d".into()).status_code(), 500);
    assert_eq!(ApplicationError::TemplateError.status_code(), 500);
    assert_eq!(ApplicationError::IllegalToken.status_code(), 400);
    assert_eq!(ApplicationError::CookiesUnapproved.status_code(), 400);
    assert_eq!(ApplicationError::BadRequest.status_code(), 400);
    assert_eq!(ApplicationError::UserNotAuthorized("u".into()).status_code(), 403);
    assert_eq!(ApplicationError::NotFound.status_code(), 404);
    assert_eq!(ApplicationError::IllegalToken.redirect_url().as_deref(), Some("/logout"));
    assert_eq!(ApplicationError::CookiesUnapproved.redirect_url().as_deref(), Some("/cookies"));
    assert_eq!(ApplicationError::NotFound.redirect_url(), None);
}

#[test]
fn web_error_messages() {
    assert_eq!(
        ApplicationError::UserNotAuthorized("carol".into()).message(),
        "The following user's access has not been granted or has been revoked : carol "
    );
    assert_eq!(
        ApplicationError::CookiesUnapproved.message(),
        "You haven't approved cookies yet, approve them prior any usage of the application"
    );
}

#[test]
fn cookie_approval_check() {
    assert!(matches!(CookieChecker::decide(true, "/admin"), CookieDecision::Forward));
    assert!(matches!(CookieChecker::decide(false, "/"), CookieDecision::RedirectToCookies));
    assert!(matches!(CookieChecker::decide(false, "/cookies"), CookieDecision::Forward));
    assert!(matches!(
        CookieChecker::decide(false, "/games"),
        CookieDecision::Reject(ApplicationError::CookiesUnapproved)
    ));
}

#[test]
fn session_claims_and_login_outcomes() {
    let user = User { id: 3, name: "Dan".into(), login: "dan".into(), password: "x".into(), is_authorized: 1, role: 2 };
    let nav = vec![NavAccess { id: 1, label: "HOME".into(), href: "/".into(), position: Some(1) }];
    let j = JwtUser::from_user(&user, nav.clone());
    assert_eq!((j.id, j.login.as_str(), j.name.as_str(), j.is_authorized, j.role), (3, "dan", "Dan", 1, 2));
    assert_eq!(j.nav, nav);
    assert!(matches!(JwtUser::unmatched_login("dan", false), Ok(None)));
    match JwtUser::unmatched_login("dan", true) {
        Err(ApplicationError::UserNotAuthorized(l)) => assert_eq!(l, "dan"),
        _ => panic!("expected a refusal"),
    }
    assert_eq!(JwtUser::token_from_cookie(Some("t".into())).unwrap(), "t");
    assert!(matches!(JwtUser::token_from_cookie(None), Err(ApplicationError::InternalError)));
}

#[test]
fn credentials_are_encrypted_with_the_key() {
    let form = LoginForm::new("erin".into(), "secret".into());
    let (login, password) = form.credentials("application-key");
    let expected = magic_crypt::MagicCrypt256::new("application-key", None::<String>).encrypt_str_to_base64("secret");
    assert_eq!(login, "erin");
    assert_eq!(password, expected);
    assert_ne!(password, "secret");
    let (_, other) = form.credentials("another-key");
    assert_ne!(password, other);
    let sign_up = SignUpForm::new("fred".into(), "Fred".into(), "secret".into());
    let (l, n, p) = sign_up.new_user("application-key");
    assert_eq!((l.as_str(), n.as_str(), p.as_str()), ("fred", "Fred", expected.as_str()));
}

#[test]
fn login_responses() {
    let ok = controllers::login_response(Some("tok".into()), "jwt");
    assert_eq!(ok.location, "/");
    assert_eq!(ok.cookie, Some(("jwt".to_string(), "tok".to_string())));
    assert_eq!(ok.delay_seconds, 0);
    let ko = controllers::login_response(None, "jwt");
    assert_eq!(ko.location, "/");
    assert_eq!(ko.cookie, None);
    assert_eq!(ko.delay_seconds, 3);
}

#[test]
fn sign_up_and_activation_rules() {
    assert!(SignUpForm::is_allowed(200));
    assert!(!SignUpForm::is_allowed(404));
    assert!(matches!(UserActivation::check_requester(3, 3), Err(ApplicationError::BadRequest)));
    assert!(UserActivation::check_requester(3, 1).is_ok());
    assert!(matches!(UserActivation::check_requester(1, 3), Err(ApplicationError::BadRequest)));
    let a = UserActivation { id: 5, value: 1, offset: 20, login: "gina".into() };
    assert_eq!(a.redirect_location(), "/admin?info=User gina's access has been modified&offset=20");
    let b = UserActivation { id: 5, value: 0, offset: -1, login: "h".into() };
    assert_eq!(b.redirect_location(), "/admin?info=User h's access has been modified&offset=-1");
}

#[test]
fn page_decisions() {
    assert_eq!(pages::index_title(None), "Login");
    let j = JwtUser { name: "Ivy".into(), ..Default::default() };
    assert_eq!(pages::index_title(Some(&j)), "Weclome back Ivy");
    assert!(pages::shows_signup(false));
    assert!(!pages::shows_signup(true));
}
