use crate::json::{models, JsonModel, JsonObject, JsonValue};
use crate::text::{contains, lowercase, occurs_in, to_lowercase};
use vstd::prelude::*;

verus! {

/// One title of the offline catalogue: its five fields, the last of which
/// is the fixed content type.
pub open spec fn title(
    site_id: Seq<char>,
    name: Seq<char>,
    synopsis: Seq<char>,
    status: Seq<char>,
) -> JsonModel {
    JsonModel::Object(
        Map::empty().insert("siteId"@, JsonModel::Text(site_id)).insert(
            "name"@,
            JsonModel::Text(name),
        ).insert("synopsis"@, JsonModel::Text(synopsis)).insert(
            "status"@,
            JsonModel::Text(status),
        ).insert("type"@, JsonModel::Text("hq"@)),
    )
}

fn title_entry(site_id: &str, name: &str, synopsis: &str, status: &str) -> (r: JsonValue)
    ensures
        r@ == title(site_id@, name@, synopsis@, status@),
{
    let mut o = JsonObject::new();
    o.insert("siteId", JsonValue::text(site_id));
    o.insert("name", JsonValue::text(name));
    o.insert("synopsis", JsonValue::text(synopsis));
    o.insert("status", JsonValue::text(status));
    o.insert("type", JsonValue::text("hq"));
    JsonValue::Object(o)
}

/// The offline titles for a term that holds `supergirl`.
pub open spec fn supergirl_titles() -> Seq<JsonModel> {
    seq![
        title(
            "601"@,
            "Batwoman e Supergirl - Melhores do Mundo (2020)"@,
            "Batwoman and Supergirl team up for an epic adventure"@,
            "Completed"@,
        ),
        title(
            "602"@,
            "DC Rebirth - Supergirl"@,
            "Supergirl's adventures in the DC Rebirth universe"@,
            "Completed"@,
        ),
        title(
            "603"@,
            "Supergirl"@,
            "The classic Supergirl series"@,
            "Completed"@,
        ),
        title(
            "604"@,
            "Supergirl (1996)"@,
            "Supergirl's adventures in the 90s"@,
            "Completed"@,
        ),
        title(
            "605"@,
            "Supergirl - do Amanhã"@,
            "Supergirl from the future"@,
            "Ongoing"@,
        ),
    ]
}

/// The offline titles for a term that holds `batman`.
pub open spec fn batman_titles() -> Seq<JsonModel> {
    seq![
        title(
            "123"@,
            "Batman: The Dark Knight Returns"@,
            "A classic Batman story"@,
            "Completed"@,
        ),
        title(
            "456"@,
            "Batman: Year One"@,
            "Batman's origin story"@,
            "Completed"@,
        ),
    ]
}

/// The offline titles for a term that holds `spider`.
pub open spec fn spider_titles() -> Seq<JsonModel> {
    seq![
        title(
            "789"@,
            "Spider-Man: The Amazing Adventures"@,
            "Web-slinging superhero action"@,
            "Ongoing"@,
        ),
        title(
            "101"@,
            "Spider-Man: Into the Spider-Verse"@,
            "Multiverse Spider-Man adventure"@,
            "Completed"@,
        ),
    ]
}

/// The offline titles for the empty term.
pub open spec fn featured_titles() -> Seq<JsonModel> {
    seq![
        title(
            "500"@,
            "Avengers: Endgame"@,
            "The epic conclusion to the Infinity Saga"@,
            "Completed"@,
        ),
        title(
            "501"@,
            "Wonder Woman: 1984"@,
            "Diana Prince's adventures in the 80s"@,
            "Completed"@,
        ),
    ]
}

fn supergirl_results() -> (r: Vec<JsonValue>)
    ensures
        models(r@) == supergirl_titles(),
{
    let mut r: Vec<JsonValue> = Vec::new();
    r.push(
        title_entry(
            "601",
            "Batwoman e Supergirl - Melhores do Mundo (2020)",
            "Batwoman and Supergirl team up for an epic adventure",
            "Completed",
        ),
    );
    r.push(
        title_entry(
            "602",
            "DC Rebirth - Supergirl",
            "Supergirl's adventures in the DC Rebirth universe",
            "Completed",
        ),
    );
    r.push(
        title_entry(
            "603",
            "Supergirl",
            "The classic Supergirl series",
            "Completed",
        ),
    );
    r.push(
        title_entry(
            "604",
            "Supergirl (1996)",
            "Supergirl's adventures in the 90s",
            "Completed",
        ),
    );
    r.push(
        title_entry(
            "605",
            "Supergirl - do Amanhã",
            "Supergirl from the future",
            "Ongoing",
        ),
    );
    assert(models(r@) =~= supergirl_titles());
    r
}

fn batman_results() -> (r: Vec<JsonValue>)
    ensures
        models(r@) == batman_titles(),
{
    let mut r: Vec<JsonValue> = Vec::new();
    r.push(
        title_entry(
            "123",
            "Batman: The Dark Knight Returns",
            "A classic Batman story",
            "Completed",
        ),
    );
    r.push(
        title_entry(
            "456",
            "Batman: Year One",
            "Batman's origin story",
            "Completed",
        ),
    );
    assert(models(r@) =~= batman_titles());
    r
}

fn spider_results() -> (r: Vec<JsonValue>)
    ensures
        models(r@) == spider_titles(),
{
    let mut r: Vec<JsonValue> = Vec::new();
    r.push(
        title_entry(
            "789",
            "Spider-Man: The Amazing Adventures",
            "Web-slinging superhero action",
            "Ongoing",
        ),
    );
    r.push(
        title_entry(
            "101",
            "Spider-Man: Into the Spider-Verse",
            "Multiverse Spider-Man adventure",
            "Completed",
        ),
    );
    assert(models(r@) =~= spider_titles());
    r
}

fn featured_results() -> (r: Vec<JsonValue>)
    ensures
        models(r@) == featured_titles(),
{
    let mut r: Vec<JsonValue> = Vec::new();
    r.push(
        title_entry(
            "500",
            "Avengers: Endgame",
            "The epic conclusion to the Infinity Saga",
            "Completed",
        ),
    );
    r.push(
        title_entry(
            "501",
            "Wonder Woman: 1984",
            "Diana Prince's adventures in the 80s",
            "Completed",
        ),
    );
    assert(models(r@) =~= featured_titles());
    r
}

/// The offline titles for a search term that is already in lower case: the
/// first of the known words that the term holds decides, the empty term
/// gets the featured titles, and any other term gets none.
pub open spec fn offline_titles(lowered: Seq<char>) -> Seq<JsonModel> {
    if occurs_in("supergirl"@, lowered) {
        supergirl_titles()
    } else if occurs_in("batman"@, lowered) {
        batman_titles()
    } else if occurs_in("spider"@, lowered) {
        spider_titles()
    } else if lowered.len() == 0 {
        featured_titles()
    } else {
        Seq::empty()
    }
}

/// The offline titles for a search term that is already in lower case.
pub fn offline_results(lowered: &str) -> (r: Vec<JsonValue>)
    ensures
        models(r@) == offline_titles(lowered@),
{
    if contains(lowered, "supergirl") {
        supergirl_results()
    } else if contains(lowered, "batman") {
        batman_results()
    } else if contains(lowered, "spider") {
        spider_results()
    } else if lowered.is_empty() {
        featured_results()
    } else {
        let r: Vec<JsonValue> = Vec::new();
        assert(models(r@) =~= Seq::<JsonModel>::empty());
        r
    }
}

/// The offline titles for a search term, whatever its case.
pub fn fallback_results(term: &str) -> (r: Vec<JsonValue>)
    ensures
        models(r@) == offline_titles(lowercase(term@)),
{
    let lowered = to_lowercase(term);
    offline_results(lowered.as_str())
}

/// How many offline titles each kind of term gets: five, two, two, two for
/// the empty term, and none for any other.
pub proof fn lemma_offline_title_counts(lowered: Seq<char>)
    ensures
        occurs_in("supergirl"@, lowered) ==> offline_titles(lowered).len() == 5,
        !occurs_in("supergirl"@, lowered) && (occurs_in("batman"@, lowered) || occurs_in(
            "spider"@,
            lowered,
        ) || lowered.len() == 0) ==> offline_titles(lowered).len() == 2,
        !occurs_in("supergirl"@, lowered) && !occurs_in("batman"@, lowered) && !occurs_in(
            "spider"@,
            lowered,
        ) && lowered.len() > 0 ==> offline_titles(lowered).len() == 0,
{
}

} // verus!
