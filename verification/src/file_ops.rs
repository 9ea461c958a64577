//! Decisions behind the file commands: renaming, deleting, opening and
//! revealing files, and reading display metadata out of a file name.
//!
//! Nothing here touches the file system or starts a process. The caller
//! reports what it found on disk and carries out what is decided.

use crate::paths::{
    file_name_of, file_stem_of, is_pdf_path, lowercase, parent_of, path_file_name,
    path_file_stem, path_parent,
};
use crate::text::{
    chars_of, decimal_digits, has_suffix, or_empty, string_of, text_or_empty, text_view,
    u64_to_decimal,
};
use vstd::prelude::*;
use vstd::string::*;

verus! {

/// `Path::join`: `name` appended to the directory `dir` as one more
/// component, in the platform's path syntax.
pub uninterp spec fn path_join(dir: Seq<char>, name: Seq<char>) -> Seq<char>;

/// `Path::join`. The result depends on the two texts alone.
#[verifier::external_body]
fn join_path(dir: &str, name: &str) -> (res: String)
    ensures
        res@ == path_join(dir@, name@),
{
    std::path::Path::new(dir).join(name).to_string_lossy().into_owned()
}

/// Display metadata read from a file's name.
#[derive(Clone, Debug, PartialEq, Eq)]
pub struct FileMetadata {
    pub file_name: String,
    pub full_path: String,
    pub title: String,
}

/// What is to be opened, and how.
#[derive(Clone, Debug, PartialEq, Eq)]
pub struct OpenFileParams {
    pub path: String,
    pub page: Option<u32>,
    pub program_path: Option<String>,
}

/// How opening a file ended.
#[derive(Clone, Debug, PartialEq, Eq)]
pub struct OpenFileResult {
    /// Whether the file was opened the way that was asked for.
    pub success: bool,
    /// The program that was started.
    pub path: String,
}

/// The operating system the application runs on.
#[derive(Clone, Copy, Debug, PartialEq, Eq)]
pub enum Platform {
    Windows,
    MacOs,
    Linux,
}

/// A program to start, with its arguments.
#[derive(Clone, Debug, PartialEq, Eq)]
pub struct LaunchCommand {
    pub program: String,
    pub args: Vec<String>,
}

/// One try at opening a file.
#[derive(Clone, Debug, PartialEq, Eq)]
pub struct OpenAttempt {
    pub command: LaunchCommand,
    /// The try is passed over unless the program exists on disk.
    pub must_exist: bool,
    /// What `success` reports when this try starts its program.
    pub reports_success: bool,
}

/// How one try at opening a file went.
#[derive(Clone, Debug, PartialEq, Eq)]
pub enum AttemptReport {
    /// The program had to exist and does not.
    Missing,
    /// The program could not be started; the text is the system's error.
    Failed(String),
    Started,
}

/// What follows one try at opening a file.
#[derive(Debug, PartialEq, Eq)]
pub enum OpenStep {
    /// Go on with the try at this index.
    Try(usize),
    /// Over: the result, or the message of the failure.
    Done(Result<OpenFileResult, String>),
}

/// Why a file is not renamed.
#[derive(Clone, Debug, PartialEq, Eq)]
pub enum RenameError {
    /// The file to rename does not exist.
    NotFound { path: String },
    /// The path of the file has no parent directory.
    NoParent,
    /// The directory already holds a file of the new name.
    AlreadyExists { name: String },
    /// The system refused the renaming for want of permission.
    PermissionDenied { detail: String },
    /// The system refused the renaming for another reason.
    Failed { detail: String },
}

/// What deleting a path comes to.
#[derive(Clone, Copy, Debug, PartialEq, Eq)]
pub enum DeleteAction {
    RemoveFile,
    RemoveDirectoryTree,
    /// The path is neither a file nor a directory: nothing is removed.
    Nothing,
}

/// Why nothing is deleted.
#[derive(Clone, Copy, Debug, PartialEq, Eq)]
pub enum DeleteError {
    NotFound,
}

/// The views of a list of texts.
pub open spec fn texts(list: Seq<String>) -> Seq<Seq<char>> {
    list.map_values(|s: String| s@)
}

/// The rest of `s` after its first space; `None` where it has no space.
pub open spec fn after_space(s: Seq<char>) -> Option<Seq<char>>
    decreases s.len(),
{
    if s.len() == 0 {
        None
    } else if s[0] == ' ' {
        Some(s.skip(1))
    } else {
        after_space(s.skip(1))
    }
}

/// The rest of `s` after its `n`-th space; `None` where it has fewer spaces.
pub open spec fn after_spaces(s: Seq<char>, n: nat) -> Option<Seq<char>>
    decreases n,
{
    if n == 0 {
        Some(s)
    } else {
        match after_space(s) {
            Some(rest) => after_spaces(rest, (n - 1) as nat),
            None => None,
        }
    }
}

/// The title that a file stem of four space-separated parts carries: what
/// follows its third space.
pub open spec fn stem_title(stem: Seq<char>) -> Option<Seq<char>> {
    after_spaces(stem, 3)
}

/// The title in a file stem, if the stem has a third space.
pub fn title_of_stem(stem: &str) -> (res: Option<String>)
    ensures
        text_view(res) == stem_title(stem@),
{
    let chars = chars_of(stem);
    let mut i: usize = 0;
    let mut left: u8 = 3;
    assert(chars@.skip(0) =~= chars@);
    while i < chars.len() && left > 0
        invariant
            i <= chars.len(),
            left <= 3,
            chars@ == stem@,
            stem_title(stem@) == after_spaces(chars@.skip(i as int), left as nat),
        decreases chars.len() - i,
    {
        proof {
            let here = chars@.skip(i as int);
            assert(here[0] == chars@[i as int]);
            assert(here.skip(1) =~= chars@.skip(i + 1));
            reveal_with_fuel(after_spaces, 2);
        }
        if chars[i] == ' ' {
            left -= 1;
        }
        i += 1;
    }
    if left == 0 {
        assert(chars@.skip(i as int) =~= chars@.subrange(i as int, chars.len() as int));
        Some(string_of(&chars, i, chars.len()))
    } else {
        assert(chars@.skip(i as int).len() == 0);
        None
    }
}

/// Reads display metadata out of the name of the file at `path`.
///
/// The result is `Some` exactly for a regular file whose stem has at least
/// three spaces; the title is what follows the third.
pub fn parse_file_metadata(path: &str, is_file: bool) -> (res: Option<FileMetadata>)
    ensures
        res is Some <==> is_file && path_file_stem(path@) is Some && stem_title(
            path_file_stem(path@)->0,
        ) is Some,
        res matches Some(meta) ==> {
            &&& meta.file_name@ == or_empty(path_file_name(path@))
            &&& meta.full_path@ == path@
            &&& Some(meta.title@) == stem_title(path_file_stem(path@)->0)
        },
{
    if !is_file {
        return None;
    }
    match file_stem_of(path) {
        Some(stem) => match title_of_stem(stem.as_str()) {
            Some(title) => Some(
                FileMetadata {
                    file_name: text_or_empty(file_name_of(path)),
                    full_path: path.to_owned(),
                    title,
                },
            ),
            None => None,
        },
        None => None,
    }
}

/// Where a file would be after renaming it within its directory.
pub open spec fn rename_target(path: Seq<char>, new_name: Seq<char>) -> Option<Seq<char>> {
    match path_parent(path) {
        Some(dir) => Some(path_join(dir, new_name)),
        None => None,
    }
}

/// The path that the file at `path` would have under the name `new_name`;
/// `None` where `path` has no parent directory.
pub fn renamed_path(path: &str, new_name: &str) -> (res: Option<String>)
    ensures
        text_view(res) == rename_target(path@, new_name@),
{
    match parent_of(path) {
        Some(dir) => Some(join_path(dir.as_str(), new_name)),
        None => None,
    }
}

/// Decides whether the file at `original_full_path` may be renamed to
/// `new_filename` in its directory, given whether the file exists and
/// whether the path it would get is taken.
///
/// - `NotFound` exactly when the file does not exist;
/// - else `NoParent` exactly when its path has no parent directory;
/// - else `AlreadyExists` exactly when the new path is taken: no renaming
///   is asked for, and both files stay as they are;
/// - else the new path, to which the caller renames the file.
pub fn edit_filename(
    original_full_path: &str,
    new_filename: &str,
    original_exists: bool,
    target_exists: bool,
) -> (res: Result<String, RenameError>)
    ensures
        match res {
            Ok(target) => {
                &&& original_exists
                &&& !target_exists
                &&& Some(target@) == rename_target(original_full_path@, new_filename@)
            },
            Err(RenameError::NotFound { path }) => !original_exists && path@
                == original_full_path@,
            Err(RenameError::NoParent) => original_exists && rename_target(
                original_full_path@,
                new_filename@,
            ) is None,
            Err(RenameError::AlreadyExists { name }) => {
                &&& original_exists
                &&& rename_target(original_full_path@, new_filename@) is Some
                &&& target_exists
                &&& name@ == new_filename@
            },
            Err(_) => false,
        },
{
    if !original_exists {
        return Err(RenameError::NotFound { path: original_full_path.to_owned() });
    }
    match renamed_path(original_full_path, new_filename) {
        Some(target) => {
            if target_exists {
                Err(RenameError::AlreadyExists { name: new_filename.to_owned() })
            } else {
                Ok(target)
            }
        },
        None => Err(RenameError::NoParent),
    }
}

/// The error for a renaming that the system refused.
pub fn rename_failure(permission_denied: bool, detail: &str) -> (res: RenameError)
    ensures
        permission_denied ==> (res matches RenameError::PermissionDenied { detail: d } && d@
            == detail@),
        !permission_denied ==> (res matches RenameError::Failed { detail: d } && d@ == detail@),
{
    if permission_denied {
        RenameError::PermissionDenied { detail: detail.to_owned() }
    } else {
        RenameError::Failed { detail: detail.to_owned() }
    }
}

/// The message shown for a renaming that did not happen.
pub open spec fn rename_message(error: RenameError) -> Seq<char> {
    match error {
        RenameError::NotFound { path } => "Оригинальный файл не найден: "@ + path@,
        RenameError::NoParent => "Не удалось получить родительскую директорию файла"@,
        RenameError::AlreadyExists { name } => "Файл с именем '"@ + name@
            + "' уже существует в этой директории."@,
        RenameError::PermissionDenied { detail } => "Ошибка доступа при переименовании файла: "@
            + detail@ + ". Убедитесь, что у приложения есть необходимые разрешения."@,
        RenameError::Failed { detail } => "Не удалось переименовать файл: "@ + detail@,
    }
}

impl RenameError {
    /// The message shown to the user.
    pub fn message(&self) -> (res: String)
        ensures
            res@ == rename_message(*self),
    {
        match self {
            RenameError::NotFound { path } => "Оригинальный файл не найден: ".to_owned().concat(
                path.as_str(),
            ),
            RenameError::NoParent => "Не удалось получить родительскую директорию файла".to_owned(),
            RenameError::AlreadyExists { name } => "Файл с именем '".to_owned().concat(
                name.as_str(),
            ).concat("' уже существует в этой директории."),
            RenameError::PermissionDenied { detail } => {
                "Ошибка доступа при переименовании файла: ".to_owned().concat(
                    detail.as_str(),
                ).concat(". Убедитесь, что у приложения есть необходимые разрешения.")
            },
            RenameError::Failed { detail } => "Не удалось переименовать файл: ".to_owned().concat(
                detail.as_str(),
            ),
        }
    }
}

/// What deleting a path comes to: `NotFound` exactly when nothing exists
/// there, else the removal that fits what is there.
pub open spec fn delete_decision(on_disk: bool, is_file: bool, is_dir: bool) -> Result<
    DeleteAction,
    DeleteError,
> {
    if !on_disk {
        Err(DeleteError::NotFound)
    } else if is_file {
        Ok(DeleteAction::RemoveFile)
    } else if is_dir {
        Ok(DeleteAction::RemoveDirectoryTree)
    } else {
        Ok(DeleteAction::Nothing)
    }
}

/// Decides what deleting a path comes to, given what is on disk there.
pub fn delete_file(on_disk: bool, is_file: bool, is_dir: bool) -> (res: Result<DeleteAction, DeleteError>)
    ensures
        res == delete_decision(on_disk, is_file, is_dir),
{
    if !on_disk {
        Err(DeleteError::NotFound)
    } else if is_file {
        Ok(DeleteAction::RemoveFile)
    } else if is_dir {
        Ok(DeleteAction::RemoveDirectoryTree)
    } else {
        Ok(DeleteAction::Nothing)
    }
}

/// The message shown when there is nothing to delete.
pub fn delete_not_found_message() -> (res: String)
    ensures
        res@ == "Файл не существует"@,
{
    "Файл не существует".to_owned()
}

/// The message shown when the system refused a removal.
pub fn delete_failure_message(action: DeleteAction, detail: &str) -> (res: String)
    ensures
        res@ == (if action == DeleteAction::RemoveDirectoryTree {
            "Не удалось удалить папку: "@
        } else {
            "Не удалось удалить файл: "@
        }) + detail@,
{
    match action {
        DeleteAction::RemoveDirectoryTree => "Не удалось удалить папку: ".to_owned().concat(
            detail,
        ),
        _ => "Не удалось удалить файл: ".to_owned().concat(detail),
    }
}

/// Whether `command` starts `program` with exactly the arguments `args`.
pub open spec fn is_command(command: LaunchCommand, program: Seq<char>, args: Seq<Seq<char>>) -> bool {
    command.program@ == program && texts(command.args@) == args
}

/// A command with one argument.
fn command1(program: &str, arg: &str) -> (command: LaunchCommand)
    ensures
        is_command(command, program@, seq![arg@]),
{
    let mut args: Vec<String> = Vec::new();
    args.push(arg.to_owned());
    assert(texts(args@) =~= seq![arg@]);
    LaunchCommand { program: program.to_owned(), args }
}

/// A command with two arguments.
fn command2(program: &str, first: &str, second: &str) -> (command: LaunchCommand)
    ensures
        is_command(command, program@, seq![first@, second@]),
{
    let mut args: Vec<String> = Vec::new();
    args.push(first.to_owned());
    args.push(second.to_owned());
    assert(texts(args@) =~= seq![first@, second@]);
    LaunchCommand { program: program.to_owned(), args }
}

/// A command with three arguments.
fn command3(program: &str, first: &str, second: &str, third: &str) -> (command: LaunchCommand)
    ensures
        is_command(command, program@, seq![first@, second@, third@]),
{
    let mut args: Vec<String> = Vec::new();
    args.push(first.to_owned());
    args.push(second.to_owned());
    args.push(third.to_owned());
    assert(texts(args@) =~= seq![first@, second@, third@]);
    LaunchCommand { program: program.to_owned(), args }
}

/// The program that opens any file by its association.
pub open spec fn generic_opener(platform: Platform) -> Seq<char> {
    match platform {
        Platform::Windows => "explorer"@,
        Platform::MacOs => "open"@,
        Platform::Linux => "xdg-open"@,
    }
}

/// The program that opens any file by its association.
pub fn opener_of(platform: Platform) -> (res: &'static str)
    ensures
        res@ == generic_opener(platform),
{
    match platform {
        Platform::Windows => "explorer",
        Platform::MacOs => "open",
        Platform::Linux => "xdg-open",
    }
}

/// The places where a PDF reader is looked for, in order of preference.
pub open spec fn reader_locations() -> Seq<Seq<char>> {
    seq![
        "C:\\Program Files\\Adobe\\Acrobat DC\\Acrobat\\Acrobat.exe"@,
        "C:\\Program Files (x86)\\Adobe\\Acrobat Reader DC\\Reader\\AcroRd32.exe"@,
        "C:\\Program Files (x86)\\Adobe\\Acrobat DC\\Acrobat\\Acrobat.exe"@,
    ]
}

/// The argument that makes a reader open a document at `page`.
pub open spec fn page_argument(page: u32) -> Seq<char> {
    "page="@ + decimal_digits(page as nat)
}

/// Whether `attempt` starts the reader at `program` on `path` at `page`,
/// provided the reader exists, and reports success.
pub open spec fn is_reader_attempt(
    attempt: OpenAttempt,
    program: Seq<char>,
    page: u32,
    path: Seq<char>,
) -> bool {
    &&& is_command(attempt.command, program, seq!["/A"@, page_argument(page), path])
    &&& attempt.must_exist
    &&& attempt.reports_success
}

/// Whether `attempt` hands `path` to the generic opener, reporting `success`.
pub open spec fn is_generic_attempt(
    attempt: OpenAttempt,
    platform: Platform,
    path: Seq<char>,
    success: bool,
) -> bool {
    &&& is_command(attempt.command, generic_opener(platform), seq![path])
    &&& !attempt.must_exist
    &&& attempt.reports_success == success
}

/// Whether the reader chain applies: on Windows, for a PDF with a page.
pub open spec fn wants_reader(platform: Platform, params: OpenFileParams) -> bool {
    platform == Platform::Windows && params.page is Some && has_suffix(
        lowercase(params.path@),
        ".pdf"@,
    )
}

/// Whether `attempts` is the chain of tries for opening a file.
///
/// On Windows a PDF with a page goes to a reader at that page: the program
/// that the caller names and then the generic opener, which then does not
/// count as success; or, where the caller names none, the well-known reader
/// locations in turn and then the generic opener. Everything else, and
/// every file on another platform, goes to the generic opener alone.
pub open spec fn is_open_chain(
    attempts: Seq<OpenAttempt>,
    platform: Platform,
    params: OpenFileParams,
) -> bool {
    let path = params.path@;
    if wants_reader(platform, params) {
        let page = params.page->0;
        match params.program_path {
            Some(program) => {
                &&& attempts.len() == 2
                &&& is_reader_attempt(attempts[0], program@, page, path)
                &&& is_generic_attempt(attempts[1], platform, path, false)
            },
            None => {
                &&& attempts.len() == 4
                &&& forall|i: int|
                    0 <= i < 3 ==> is_reader_attempt(
                        #[trigger] attempts[i],
                        reader_locations()[i],
                        page,
                        path,
                    )
                &&& is_generic_attempt(attempts[3], platform, path, true)
            },
        }
    } else {
        &&& attempts.len() == 1
        &&& is_generic_attempt(attempts[0], platform, path, true)
    }
}

/// One try with a reader.
fn reader_attempt(program: &str, page: u32, path: &str) -> (attempt: OpenAttempt)
    ensures
        is_reader_attempt(attempt, program@, page, path@),
{
    let page_arg = "page=".to_owned().concat(u64_to_decimal(page as u64).as_str());
    OpenAttempt {
        command: command3(program, "/A", page_arg.as_str(), path),
        must_exist: true,
        reports_success: true,
    }
}

/// One try with the generic opener.
fn generic_attempt(platform: Platform, path: &str, success: bool) -> (attempt: OpenAttempt)
    ensures
        is_generic_attempt(attempt, platform, path@, success),
{
    OpenAttempt {
        command: command1(opener_of(platform), path),
        must_exist: false,
        reports_success: success,
    }
}

/// The chain of tries for opening a file, in the order in which they are made.
pub fn open_file(params: &OpenFileParams, platform: Platform) -> (attempts: Vec<OpenAttempt>)
    ensures
        is_open_chain(attempts@, platform, *params),
{
    let path = params.path.as_str();
    let mut attempts: Vec<OpenAttempt> = Vec::new();
    let reader_page: Option<u32> = match platform {
        Platform::Windows => match params.page {
            Some(page) => if is_pdf_path(path) {
                Some(page)
            } else {
                None
            },
            None => None,
        },
        _ => None,
    };
    match reader_page {
        Some(page) => match &params.program_path {
            Some(program) => {
                attempts.push(reader_attempt(program.as_str(), page, path));
                attempts.push(generic_attempt(platform, path, false));
            },
            None => {
                attempts.push(
                    reader_attempt(
                        "C:\\Program Files\\Adobe\\Acrobat DC\\Acrobat\\Acrobat.exe",
                        page,
                        path,
                    ),
                );
                attempts.push(
                    reader_attempt(
                        "C:\\Program Files (x86)\\Adobe\\Acrobat Reader DC\\Reader\\AcroRd32.exe",
                        page,
                        path,
                    ),
                );
                attempts.push(
                    reader_attempt(
                        "C:\\Program Files (x86)\\Adobe\\Acrobat DC\\Acrobat\\Acrobat.exe",
                        page,
                        path,
                    ),
                );
                attempts.push(generic_attempt(platform, path, true));
            },
        },
        None => {
            attempts.push(generic_attempt(platform, path, true));
        },
    }
    attempts
}

/// The result when no try started a program: on Windows a result without
/// success that names the generic opener, elsewhere the failure message.
pub open spec fn is_exhausted_result(
    res: Result<OpenFileResult, String>,
    platform: Platform,
    detail: Seq<char>,
) -> bool {
    match res {
        Ok(result) => platform == Platform::Windows && !result.success && result.path@
            == generic_opener(platform),
        Err(message) => platform != Platform::Windows && message@ == "Ошибка при открытии файла: "@
            + detail,
    }
}

/// Whether `step` is what follows the try at `index`, which went as `report`.
///
/// A program that started ends the chain: the result names it and reports
/// what the try stood for. Otherwise the next try is due, and after the
/// last one the chain ends without a program started.
pub open spec fn is_open_step(
    step: OpenStep,
    attempts: Seq<OpenAttempt>,
    platform: Platform,
    index: int,
    report: AttemptReport,
) -> bool {
    if 0 <= index < attempts.len() && report == AttemptReport::Started {
        &&& step matches OpenStep::Done(Ok(result))
        &&& result.success == attempts[index].reports_success
        &&& result.path@ == attempts[index].command.program@
    } else if 0 <= index && index + 1 < attempts.len() {
        step == OpenStep::Try((index + 1) as usize)
    } else {
        &&& step matches OpenStep::Done(res)
        &&& is_exhausted_result(
            res,
            platform,
            match report {
                AttemptReport::Failed(detail) => detail@,
                _ => Seq::empty(),
            },
        )
    }
}

/// Says what follows the try at `index` of the chain.
pub fn open_file_step(
    attempts: &Vec<OpenAttempt>,
    platform: Platform,
    index: usize,
    report: AttemptReport,
) -> (step: OpenStep)
    ensures
        is_open_step(step, attempts@, platform, index as int, report),
{
    if index < attempts.len() {
        match report {
            AttemptReport::Started => {
                return OpenStep::Done(
                    Ok(
                        OpenFileResult {
                            success: attempts[index].reports_success,
                            path: attempts[index].command.program.clone(),
                        },
                    ),
                );
            },
            _ => {
                if index + 1 < attempts.len() {
                    return OpenStep::Try(index + 1);
                }
            },
        }
    }
    match platform {
        Platform::Windows => OpenStep::Done(
            Ok(OpenFileResult { success: false, path: opener_of(platform).to_owned() }),
        ),
        _ => {
            let detail: String = match report {
                AttemptReport::Failed(detail) => detail,
                _ => String::new(),
            };
            OpenStep::Done(Err("Ошибка при открытии файла: ".to_owned().concat(detail.as_str())))
        },
    }
}

/// The command that shows `path` in the platform's file manager; `None` on
/// Linux where the path has no parent directory to show.
pub fn show_in_explorer(platform: Platform, path: &str) -> (res: Option<LaunchCommand>)
    ensures
        match platform {
            Platform::Windows => res matches Some(c) && is_command(
                c,
                "explorer"@,
                seq!["/select,"@, path@],
            ),
            Platform::MacOs => res matches Some(c) && is_command(c, "open"@, seq!["-R"@, path@]),
            Platform::Linux => match path_parent(path@) {
                Some(dir) => res matches Some(c) && is_command(c, "xdg-open"@, seq![dir]),
                None => res is None,
            },
        },
{
    match platform {
        Platform::Windows => Some(command2("explorer", "/select,", path)),
        Platform::MacOs => Some(command2("open", "-R", path)),
        Platform::Linux => match parent_of(path) {
            Some(dir) => Some(command1("xdg-open", dir.as_str())),
            None => None,
        },
    }
}

/// The command that lets the user choose a program for `path`.
pub fn open_file_with(platform: Platform, path: &str) -> (command: LaunchCommand)
    ensures
        match platform {
            Platform::Windows => is_command(
                command,
                "rundll32"@,
                seq!["shell32.dll,OpenAs_RunDLL"@, path@],
            ),
            Platform::MacOs => is_command(
                command,
                "open"@,
                seq!["-a"@, "Choose Application"@, path@],
            ),
            Platform::Linux => is_command(command, "xdg-open"@, seq![path@]),
        },
{
    match platform {
        Platform::Windows => command2("rundll32", "shell32.dll,OpenAs_RunDLL", path),
        Platform::MacOs => command3("open", "-a", "Choose Application", path),
        Platform::Linux => command1("xdg-open", path),
    }
}

/// The message shown where the file manager has no directory to show.
pub fn no_parent_message() -> (res: String)
    ensures
        res@ == "Не удалось получить родительскую директорию"@,
{
    "Не удалось получить родительскую директорию".to_owned()
}

/// The message shown when the file manager could not be started.
pub fn reveal_failure_message(platform: Platform, detail: &str) -> (res: String)
    ensures
        res@ == (match platform {
            Platform::Windows => "Не удалось открыть проводник: "@,
            Platform::MacOs => "Не удалось открыть Finder: "@,
            Platform::Linux => "Не удалось открыть файловый менеджер: "@,
        }) + detail@,
{
    match platform {
        Platform::Windows => "Не удалось открыть проводник: ".to_owned().concat(detail),
        Platform::MacOs => "Не удалось открыть Finder: ".to_owned().concat(detail),
        Platform::Linux => "Не удалось открыть файловый менеджер: ".to_owned().concat(detail),
    }
}

/// The message shown when the program chooser could not be started.
pub fn open_with_failure_message(platform: Platform, detail: &str) -> (res: String)
    ensures
        res@ == (match platform {
            Platform::Windows => "Не удалось открыть диалог 'Открыть с помощью': "@,
            Platform::MacOs => "Не удалось открыть диалог выбора приложения: "@,
            Platform::Linux => "Не удалось открыть файл: "@,
        }) + detail@,
{
    match platform {
        Platform::Windows => "Не удалось открыть диалог 'Открыть с помощью': ".to_owned().concat(
            detail,
        ),
        Platform::MacOs => "Не удалось открыть диалог выбора приложения: ".to_owned().concat(
            detail,
        ),
        Platform::Linux => "Не удалось открыть файл: ".to_owned().concat(detail),
    }
}

} // verus!
