use vstd::prelude::*;

verus! {

/// An installed plugin, as the library of the user records it.
#[derive(Debug, Clone, PartialEq, Eq)]
pub struct Plugin {
    pub id: i64,
    pub enabled: bool,
    pub name: String,
    pub repository: String,
    pub version: String,
    pub path: String,
}

/// A title in the library of the user.
#[derive(Debug, Clone, PartialEq, Eq)]
pub struct Comic {
    pub id: i64,
    pub site_id: String,
    pub name: String,
    pub cover: String,
    pub repo: String,
    pub author: Option<String>,
    pub artist: Option<String>,
    pub publisher: Option<String>,
    pub status: Option<String>,
    pub genres: Option<String>,
    pub site_link: Option<String>,
    pub year: Option<String>,
    pub synopsis: String,
    pub kind: String,
}

/// A chapter of a title.
#[derive(Debug, Clone, PartialEq, Eq)]
pub struct Chapter {
    pub id: i64,
    pub comic_id: i64,
    pub site_id: String,
    pub site_link: Option<String>,
    pub release_id: Option<String>,
    pub repo: String,
    pub name: Option<String>,
    pub number: String,
    pub pages: Option<String>,
    pub date: Option<String>,
    pub offline: bool,
    pub language: Option<String>,
}

/// How far a user has read a chapter.
#[derive(Debug, Clone, PartialEq, Eq)]
pub struct ReadProgress {
    pub id: i64,
    pub chapter_id: i64,
    pub comic_id: i64,
    pub user_id: i64,
    pub total_pages: i64,
    pub page: i64,
}

/// A reader.
#[derive(Debug, Clone, PartialEq, Eq)]
pub struct User {
    pub id: i64,
    pub name: String,
    pub default: bool,
}

/// A title with its chapters.
#[derive(Debug, Clone, PartialEq, Eq)]
pub struct ComicWithChapters {
    pub comic: Comic,
    pub chapters: Option<Vec<ChapterWithProgress>>,
}

/// A chapter with what a user has read of it.
#[derive(Debug, Clone, PartialEq, Eq)]
pub struct ChapterWithProgress {
    pub chapter: Chapter,
    pub read_progress: Option<Vec<ReadProgress>>,
}

/// Asks for one title.
#[derive(Debug, Clone, PartialEq, Eq)]
pub struct GetComicRequest {
    pub id: i64,
}

/// Asks for one title with its chapters and what a user has read.
#[derive(Debug, Clone, PartialEq, Eq)]
pub struct GetComicAdditionalDataRequest {
    pub id: i64,
    pub user_id: i64,
}

/// Adds a title and its chapters from a content source.
#[derive(Debug, Clone, PartialEq, Eq)]
pub struct InsertComicRequest {
    pub comic: Comic,
    pub chapters: Vec<Chapter>,
    pub repo: String,
}

/// Removes a title.
#[derive(Debug, Clone, PartialEq, Eq)]
pub struct DeleteComicRequest {
    pub comic: Comic,
}

/// Asks for the chapters of a title.
#[derive(Debug, Clone, PartialEq, Eq)]
pub struct GetChaptersRequest {
    pub comic_id: i64,
}

/// Adds chapters.
#[derive(Debug, Clone, PartialEq, Eq)]
pub struct InsertChaptersRequest {
    pub chapters: Vec<Chapter>,
}

/// Changes a chapter.
#[derive(Debug, Clone, PartialEq, Eq)]
pub struct UpdateChapterRequest {
    pub chapter: Chapter,
}

/// Records what a user has read.
#[derive(Debug, Clone, PartialEq, Eq)]
pub struct UpdateReadProgressRequest {
    pub read_progress: ReadProgress,
}

/// Adds or changes a reader.
#[derive(Debug, Clone, PartialEq, Eq)]
pub struct UpdateUserRequest {
    pub user: User,
}

/// Removes a reader.
#[derive(Debug, Clone, PartialEq, Eq)]
pub struct DeleteUserRequest {
    pub id: i64,
}

/// What the manifest of an installed plugin says of it.
#[derive(Debug, Clone, PartialEq, Eq)]
pub struct PluginInfo {
    pub name: String,
    pub path: String,
    pub author: Option<String>,
    pub version: String,
    pub repository: String,
    pub icon_path: String,
}

/// A content source that the user can choose.
#[derive(Debug, Clone, PartialEq, Eq)]
pub struct RepoOption {
    pub label: String,
    pub value: String,
}

/// What the application says of itself.
#[derive(Debug, Clone, PartialEq, Eq)]
pub struct AppData {
    pub name: String,
    pub version: String,
    pub description: String,
    pub author: String,
}

/// Where the application runs.
#[derive(Debug, Clone, PartialEq, Eq)]
pub struct AppParams {
    pub app_running_path: String,
    pub app_path: String,
    pub is_dev: bool,
}

} // verus!
