use crate::error::{ErrorModel, PluginError};
use crate::models::ReadProgress;
use crate::text::join;
use crate::utils::{joined_path, parent_path, path_join, path_parent};
use vstd::prelude::*;

verus! {

/// A query for reading progress: its text and the values for its
/// placeholders, in order.
#[derive(Debug, PartialEq, Eq)]
pub struct ReadProgressQuery {
    pub sql: String,
    pub params: Vec<i64>,
}

/// The conditions of a query for reading progress: one for each identifier
/// that is given, in the order chapter, title, user.
pub open spec fn progress_conditions(
    chapter_id: Option<i64>,
    comic_id: Option<i64>,
    user_id: Option<i64>,
) -> Seq<Seq<char>> {
    let chapter = if chapter_id is Some {
        seq!["chapter_id = ?"@]
    } else {
        Seq::empty()
    };
    let comic = if comic_id is Some {
        seq!["comic_id = ?"@]
    } else {
        Seq::empty()
    };
    let user = if user_id is Some {
        seq!["user_id = ?"@]
    } else {
        Seq::empty()
    };
    chapter + comic + user
}

/// The values for the placeholders of the conditions, in the same order.
pub open spec fn progress_params(
    chapter_id: Option<i64>,
    comic_id: Option<i64>,
    user_id: Option<i64>,
) -> Seq<i64> {
    let chapter = if chapter_id is Some {
        seq![chapter_id->Some_0]
    } else {
        Seq::empty()
    };
    let comic = if comic_id is Some {
        seq![comic_id->Some_0]
    } else {
        Seq::empty()
    };
    let user = if user_id is Some {
        seq![user_id->Some_0]
    } else {
        Seq::empty()
    };
    chapter + comic + user
}

/// The conditions, with `AND` between them.
pub open spec fn conjunction(conditions: Seq<Seq<char>>) -> Seq<char>
    decreases conditions.len(),
{
    if conditions.len() == 0 {
        Seq::empty()
    } else if conditions.len() == 1 {
        conditions[0]
    } else {
        conjunction(conditions.drop_last()) + " AND "@ + conditions.last()
    }
}

/// The text of a query for reading progress under `conditions`.
pub open spec fn progress_sql(conditions: Seq<Seq<char>>) -> Seq<char> {
    if conditions.len() == 0 {
        "SELECT * FROM ReadProgress"@
    } else {
        "SELECT * FROM ReadProgress"@ + " WHERE "@ + conjunction(conditions)
    }
}

/// What a user has read of a chapter, as a row that joins the chapter with
/// its progress tells it: nothing where the row has no progress, else one
/// record, with zero for a number of pages that the row does not give.
pub open spec fn progress_of_row(
    progress_id: Option<i64>,
    chapter_id: i64,
    comic_id: i64,
    user_id: i64,
    total_pages: Option<i64>,
    page: Option<i64>,
) -> Option<Seq<ReadProgress>> {
    match progress_id {
        Some(id) => Some(
            seq![
                ReadProgress {
                    id,
                    chapter_id,
                    comic_id,
                    user_id,
                    total_pages: if total_pages is Some {
                        total_pages->Some_0
                    } else {
                        0
                    },
                    page: if page is Some {
                        page->Some_0
                    } else {
                        0
                    },
                },
            ],
        ),
        None => None,
    }
}

/// Where the application keeps its data: in development the parent of the
/// working directory, else `comic-universe` below the data directory of the
/// user.
pub open spec fn data_directory_of(is_dev: bool, base: Seq<char>) -> Result<
    Seq<char>,
    ErrorModel,
> {
    if is_dev {
        match parent_path(base) {
            Some(parent) => Ok(parent),
            None => Err(ErrorModel::Io("Could not find project root directory"@)),
        }
    } else {
        Ok(joined_path(base, "comic-universe"@))
    }
}

/// The address of the database in the data directory.
pub open spec fn database_address(data_dir: Seq<char>) -> Seq<char> {
    "sqlite://"@ + joined_path(data_dir, "database.db"@)
}

/// The query for the reading progress that matches every identifier that
/// is given.
pub fn read_progress_query(
    chapter_id: Option<i64>,
    comic_id: Option<i64>,
    user_id: Option<i64>,
) -> (r: ReadProgressQuery)
    ensures
        r.sql@ == progress_sql(progress_conditions(chapter_id, comic_id, user_id)),
        r.params@ == progress_params(chapter_id, comic_id, user_id),
{
    let mut sql = "SELECT * FROM ReadProgress".to_owned();
    let mut params: Vec<i64> = Vec::new();
    let ghost mut conditions: Seq<Seq<char>> = Seq::empty();
    let mut any = false;
    match chapter_id {
        Some(id) => {
            sql = join(join(sql.as_str(), " WHERE ").as_str(), "chapter_id = ?");
            params.push(id);
            any = true;
            proof {
                conditions = conditions.push("chapter_id = ?"@);
            }
        },
        None => {},
    }
    assert(conditions =~= progress_conditions(chapter_id, None, None));
    assert(params@ =~= progress_params(chapter_id, None, None));
    assert(sql@ =~= progress_sql(conditions));
    match comic_id {
        Some(id) => {
            let glue = if any {
                " AND "
            } else {
                " WHERE "
            };
            let ghost before = conditions;
            sql = join(join(sql.as_str(), glue).as_str(), "comic_id = ?");
            params.push(id);
            proof {
                conditions = conditions.push("comic_id = ?"@);
                assert(conditions.drop_last() =~= before);
                assert(sql@ =~= progress_sql(conditions));
            }
            any = true;
        },
        None => {},
    }
    assert(conditions =~= progress_conditions(chapter_id, comic_id, None));
    assert(params@ =~= progress_params(chapter_id, comic_id, None));
    match user_id {
        Some(id) => {
            let glue = if any {
                " AND "
            } else {
                " WHERE "
            };
            let ghost before = conditions;
            sql = join(join(sql.as_str(), glue).as_str(), "user_id = ?");
            params.push(id);
            proof {
                conditions = conditions.push("user_id = ?"@);
                assert(conditions.drop_last() =~= before);
                assert(sql@ =~= progress_sql(conditions));
            }
        },
        None => {},
    }
    assert(conditions =~= progress_conditions(chapter_id, comic_id, user_id));
    assert(params@ =~= progress_params(chapter_id, comic_id, user_id));
    ReadProgressQuery { sql, params }
}

/// What a user has read of a chapter, as a row that joins the chapter with
/// its progress tells it.
pub fn row_progress(
    progress_id: Option<i64>,
    chapter_id: i64,
    comic_id: i64,
    user_id: i64,
    total_pages: Option<i64>,
    page: Option<i64>,
) -> (r: Option<Vec<ReadProgress>>)
    ensures
        match r {
            Some(list) => progress_of_row(
                progress_id,
                chapter_id,
                comic_id,
                user_id,
                total_pages,
                page,
            ) == Some(list@),
            None => progress_id is None,
        },
{
    match progress_id {
        Some(id) => {
            let mut list: Vec<ReadProgress> = Vec::new();
            list.push(
                ReadProgress {
                    id,
                    chapter_id,
                    comic_id,
                    user_id,
                    total_pages: match total_pages {
                        Some(n) => n,
                        None => 0,
                    },
                    page: match page {
                        Some(n) => n,
                        None => 0,
                    },
                },
            );
            assert(list@ =~= progress_of_row(
                progress_id,
                chapter_id,
                comic_id,
                user_id,
                total_pages,
                page,
            )->Some_0);
            Some(list)
        },
        None => None,
    }
}

/// Whether a record with this identifier is not stored yet: a new record
/// has the identifier zero.
pub fn is_new_record(id: i64) -> (r: bool)
    ensures
        r == (id == 0),
{
    id == 0
}

/// Where the application keeps its data, given the directory to start
/// from: the working directory in development, else the data directory of
/// the user.
pub fn data_directory(is_dev: bool, base: &str) -> (r: Result<String, PluginError>)
    ensures
        match r {
            Ok(path) => data_directory_of(is_dev, base@) == Ok::<Seq<char>, ErrorModel>(path@),
            Err(e) => data_directory_of(is_dev, base@) == Err::<Seq<char>, ErrorModel>(e@),
        },
{
    if is_dev {
        match path_parent(base) {
            Some(parent) => Ok(parent),
            None => Err(PluginError::Io("Could not find project root directory".to_owned())),
        }
    } else {
        Ok(path_join(base, "comic-universe"))
    }
}

/// The address of the database in the data directory `data_dir`.
pub fn database_url(data_dir: &str) -> (r: String)
    ensures
        r@ == database_address(data_dir@),
{
    let file = path_join(data_dir, "database.db");
    join("sqlite://", file.as_str())
}

} // verus!
