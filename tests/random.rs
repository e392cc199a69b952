use behindthename::gender::Gender;
use behindthename::gender::Gender::{Ambiguous, Any, Female, Male, Neutral};
use behindthename::request::{random, random_with_gender, random_with_params, random_with_surname, random_with_usage};

#[test]
fn test_random() {
    let req = random();
    assert_eq!(req.url("asdf"), "https://www.behindthename.com/api/random.json?key=asdf");
}

#[test]
fn test_random_with_surname() {
    let req = random_with_surname();
    assert_eq!(
        req.url("asdf"),
        "https://www.behindthename.com/api/random.json?key=asdf&randomsurname=yes"
    );
}

#[test]
fn test_random_with_gender() {
    let req_male = random_with_gender(Male);
    assert_eq!(
        req_male.url("asdf"),
        "https://www.behindthename.com/api/random.json?key=asdf&gender=m"
    );
    let req_female = random_with_gender(Female);
    assert_eq!(
        req_female.url("asdf"),
        "https://www.behindthename.com/api/random.json?key=asdf&gender=f"
    );
    let req_neutral = random_with_gender(Neutral);
    assert_eq!(
        req_neutral.url("asdf"),
        "https://www.behindthename.com/api/random.json?key=asdf&gender=u"
    );
    let req_ambiguous = random_with_gender(Ambiguous);
    assert_eq!(
        req_ambiguous.url("asdf"),
        "https://www.behindthename.com/api/random.json?key=asdf&gender=u"
    );
    let req_any = random_with_gender(Any);
    assert_eq!(req_any.url("asdf"), "https://www.behindthename.com/api/random.json?key=asdf");
}

#[test]
fn test_random_with_usage() {
    let req = random_with_usage("eng");
    assert_eq!(
        req.url("asdf"),
        "https://www.behindthename.com/api/random.json?key=asdf&usage=eng"
    );
}

#[test]
fn test_random_with_params() {
    let req = random_with_params(Gender::Female, Some("ita"), Some(5), true);
    assert_eq!(req.url("asdf"), "https://www.behindthename.com/api/random.json?key=asdf&usage=ita&gender=f&number=5&randomsurname=yes");
}

#[test]
fn random_number_is_written_in_decimal() {
    let req = random_with_params(Gender::Any, None, Some(255), false);
    assert_eq!(req.url("k"), "https://www.behindthename.com/api/random.json?key=k&number=255");
    let req = random_with_params(Gender::Any, None, Some(0), false);
    assert_eq!(req.url("k"), "https://www.behindthename.com/api/random.json?key=k&number=0");
}
