use file_search::file_ops::{
    delete_failure_message, delete_file, delete_not_found_message, edit_filename, no_parent_message,
    open_file, open_file_step, open_file_with, open_with_failure_message, opener_of,
    parse_file_metadata, rename_failure, renamed_path, reveal_failure_message, show_in_explorer,
    title_of_stem, AttemptReport, DeleteAction, DeleteError, FileMetadata, LaunchCommand,
    OpenAttempt, OpenFileParams, OpenFileResult, OpenStep, Platform, RenameError,
};

fn command(program: &str, args: &[&str]) -> LaunchCommand {
    LaunchCommand { program: program.to_string(), args: args.iter().map(|a| a.to_string()).collect() }
}

fn reader(program: &str, page: &str, path: &str) -> OpenAttempt {
    OpenAttempt { command: command(program, &["/A", page, path]), must_exist: true, reports_success: true }
}

fn generic(program: &str, path: &str, success: bool) -> OpenAttempt {
    OpenAttempt { command: command(program, &[path]), must_exist: false, reports_success: success }
}

fn params(path: &str, page: Option<u32>, program: Option<&str>) -> OpenFileParams {
    OpenFileParams { path: path.to_string(), page, program_path: program.map(|p| p.to_string()) }
}

#[test]
fn title_is_what_follows_the_third_space() {
    assert_eq!(title_of_stem("2024 Smith J Deep learning for cats"), Some("Deep learning for cats".to_string()));
    assert_eq!(title_of_stem("a b c d"), Some("d".to_string()));
    assert_eq!(title_of_stem("a b c "), Some(String::new()));
    assert_eq!(title_of_stem("   "), Some(String::new()));
    assert_eq!(title_of_stem("a  b c"), Some("c".to_string()));
    assert_eq!(title_of_stem("a b c"), None);
    assert_eq!(title_of_stem("report"), None);
    assert_eq!(title_of_stem(""), None);
}

#[test]
fn metadata_from_a_four_part_file_name() {
    assert_eq!(
        parse_file_metadata("/inbox/2024 Smith J Deep learning for cats.pdf", true),
        Some(FileMetadata {
            file_name: "2024 Smith J Deep learning for cats.pdf".to_string(),
            full_path: "/inbox/2024 Smith J Deep learning for cats.pdf".to_string(),
            title: "Deep learning for cats".to_string(),
        })
    );
    assert_eq!(parse_file_metadata("/inbox/2024 Smith J Deep learning for cats.pdf", false), None);
    assert_eq!(parse_file_metadata("/inbox/report (final).pdf", true), None);
    assert_eq!(parse_file_metadata("/in box/a b c/x.pdf", true), None);
    assert_eq!(parse_file_metadata("/", true), None);
}

#[test]
fn renaming_onto_an_existing_name_is_refused() {
    assert_eq!(
        edit_filename("/docs/a.pdf", "b.pdf", true, true),
        Err(RenameError::AlreadyExists { name: "b.pdf".to_string() })
    );
}

#[test]
fn renaming_stays_in_the_directory() {
    assert_eq!(edit_filename("/docs/a.pdf", "b.pdf", true, false), Ok("/docs/b.pdf".to_string()));
    assert_eq!(renamed_path("/docs/sub/a.pdf", "b c.txt"), Some("/docs/sub/b c.txt".to_string()));
    assert_eq!(edit_filename("a.pdf", "b.pdf", true, false), Ok("b.pdf".to_string()));
}

#[test]
fn renaming_a_missing_file_is_refused_first() {
    assert_eq!(
        edit_filename("/docs/a.pdf", "b.pdf", false, false),
        Err(RenameError::NotFound { path: "/docs/a.pdf".to_string() })
    );
    assert_eq!(
        edit_filename("/docs/a.pdf", "b.pdf", false, true),
        Err(RenameError::NotFound { path: "/docs/a.pdf".to_string() })
    );
}

#[test]
fn renaming_the_root_has_no_directory() {
    assert_eq!(edit_filename("/", "b.pdf", true, false), Err(RenameError::NoParent));
    assert_eq!(edit_filename("", "b.pdf", true, true), Err(RenameError::NoParent));
    assert_eq!(renamed_path("/", "b.pdf"), None);
}

#[test]
fn rename_messages() {
    assert_eq!(
        RenameError::NotFound { path: "/docs/a.pdf".to_string() }.message(),
        "Оригинальный файл не найден: /docs/a.pdf"
    );
    assert_eq!(RenameError::NoParent.message(), "Не удалось получить родительскую директорию файла");
    assert_eq!(
        RenameError::AlreadyExists { name: "b.pdf".to_string() }.message(),
        "Файл с именем 'b.pdf' уже существует в этой директории."
    );
    assert_eq!(
        rename_failure(true, "os error 13").message(),
        "Ошибка доступа при переименовании файла: os error 13. Убедитесь, что у приложения есть необходимые разрешения."
    );
    assert_eq!(rename_failure(false, "disk full").message(), "Не удалось переименовать файл: disk full");
    assert_eq!(rename_failure(true, "x"), RenameError::PermissionDenied { detail: "x".to_string() });
    assert_eq!(rename_failure(false, "x"), RenameError::Failed { detail: "x".to_string() });
}

#[test]
fn deleting_fits_what_is_on_disk() {
    assert_eq!(delete_file(false, false, false), Err(DeleteError::NotFound));
    assert_eq!(delete_file(false, true, true), Err(DeleteError::NotFound));
    assert_eq!(delete_file(true, true, false), Ok(DeleteAction::RemoveFile));
    assert_eq!(delete_file(true, true, true), Ok(DeleteAction::RemoveFile));
    assert_eq!(delete_file(true, false, true), Ok(DeleteAction::RemoveDirectoryTree));
    assert_eq!(delete_file(true, false, false), Ok(DeleteAction::Nothing));
    assert_eq!(delete_not_found_message(), "Файл не существует");
    assert_eq!(delete_failure_message(DeleteAction::RemoveFile, "busy"), "Не удалось удалить файл: busy");
    assert_eq!(delete_failure_message(DeleteAction::RemoveDirectoryTree, "busy"), "Не удалось удалить папку: busy");
}

#[test]
fn pdf_with_page_and_named_program_on_windows() {
    assert_eq!(
        open_file(&params("C:\\docs\\Paper.PDF", Some(12), Some("D:\\tools\\reader.exe")), Platform::Windows),
        vec![
            reader("D:\\tools\\reader.exe", "page=12", "C:\\docs\\Paper.PDF"),
            generic("explorer", "C:\\docs\\Paper.PDF", false),
        ]
    );
}

#[test]
fn pdf_with_page_goes_through_the_known_readers_on_windows() {
    assert_eq!(
        open_file(&params("C:\\docs\\paper.pdf", Some(0), None), Platform::Windows),
        vec![
            reader("C:\\Program Files\\Adobe\\Acrobat DC\\Acrobat\\Acrobat.exe", "page=0", "C:\\docs\\paper.pdf"),
            reader("C:\\Program Files (x86)\\Adobe\\Acrobat Reader DC\\Reader\\AcroRd32.exe", "page=0", "C:\\docs\\paper.pdf"),
            reader("C:\\Program Files (x86)\\Adobe\\Acrobat DC\\Acrobat\\Acrobat.exe", "page=0", "C:\\docs\\paper.pdf"),
            generic("explorer", "C:\\docs\\paper.pdf", true),
        ]
    );
    let last = open_file(&params("x.pdf", Some(u32::MAX), None), Platform::Windows);
    assert_eq!(last[0].command.args[1], "page=4294967295");
}

#[test]
fn everything_else_goes_to_the_generic_opener() {
    assert_eq!(
        open_file(&params("C:\\docs\\paper.pdf", None, Some("reader.exe")), Platform::Windows),
        vec![generic("explorer", "C:\\docs\\paper.pdf", true)]
    );
    assert_eq!(
        open_file(&params("C:\\docs\\notes.txt", Some(3), Some("reader.exe")), Platform::Windows),
        vec![generic("explorer", "C:\\docs\\notes.txt", true)]
    );
    assert_eq!(
        open_file(&params("/docs/paper.pdf", Some(3), Some("/usr/bin/reader")), Platform::Linux),
        vec![generic("xdg-open", "/docs/paper.pdf", true)]
    );
    assert_eq!(
        open_file(&params("/docs/paper.pdf", Some(3), None), Platform::MacOs),
        vec![generic("open", "/docs/paper.pdf", true)]
    );
    assert_eq!(opener_of(Platform::Windows), "explorer");
    assert_eq!(opener_of(Platform::MacOs), "open");
    assert_eq!(opener_of(Platform::Linux), "xdg-open");
}

#[test]
fn started_program_ends_the_chain() {
    let chain = open_file(&params("x.pdf", Some(2), Some("reader.exe")), Platform::Windows);
    assert_eq!(
        open_file_step(&chain, Platform::Windows, 0, AttemptReport::Started),
        OpenStep::Done(Ok(OpenFileResult { success: true, path: "reader.exe".to_string() }))
    );
    assert_eq!(
        open_file_step(&chain, Platform::Windows, 1, AttemptReport::Started),
        OpenStep::Done(Ok(OpenFileResult { success: false, path: "explorer".to_string() }))
    );
    let known = open_file(&params("x.pdf", Some(2), None), Platform::Windows);
    assert_eq!(
        open_file_step(&known, Platform::Windows, 1, AttemptReport::Started),
        OpenStep::Done(Ok(OpenFileResult {
            success: true,
            path: "C:\\Program Files (x86)\\Adobe\\Acrobat Reader DC\\Reader\\AcroRd32.exe".to_string(),
        }))
    );
    assert_eq!(
        open_file_step(&known, Platform::Windows, 3, AttemptReport::Started),
        OpenStep::Done(Ok(OpenFileResult { success: true, path: "explorer".to_string() }))
    );
}

#[test]
fn missing_or_failing_program_passes_to_the_next_try() {
    let known = open_file(&params("x.pdf", Some(2), None), Platform::Windows);
    assert_eq!(open_file_step(&known, Platform::Windows, 0, AttemptReport::Missing), OpenStep::Try(1));
    assert_eq!(
        open_file_step(&known, Platform::Windows, 1, AttemptReport::Failed("denied".to_string())),
        OpenStep::Try(2)
    );
    assert_eq!(open_file_step(&known, Platform::Windows, 2, AttemptReport::Missing), OpenStep::Try(3));
}

#[test]
fn chain_without_a_started_program() {
    let known = open_file(&params("x.pdf", Some(2), None), Platform::Windows);
    assert_eq!(
        open_file_step(&known, Platform::Windows, 3, AttemptReport::Failed("denied".to_string())),
        OpenStep::Done(Ok(OpenFileResult { success: false, path: "explorer".to_string() }))
    );
    assert_eq!(
        open_file_step(&known, Platform::Windows, 9, AttemptReport::Started),
        OpenStep::Done(Ok(OpenFileResult { success: false, path: "explorer".to_string() }))
    );
    let linux = open_file(&params("/x.pdf", None, None), Platform::Linux);
    assert_eq!(
        open_file_step(&linux, Platform::Linux, 0, AttemptReport::Failed("No such file or directory".to_string())),
        OpenStep::Done(Err("Ошибка при открытии файла: No such file or directory".to_string()))
    );
    let mac = open_file(&params("/x.pdf", None, None), Platform::MacOs);
    assert_eq!(
        open_file_step(&mac, Platform::MacOs, 0, AttemptReport::Missing),
        OpenStep::Done(Err("Ошибка при открытии файла: ".to_string()))
    );
    assert_eq!(
        open_file_step(&mac, Platform::MacOs, 0, AttemptReport::Started),
        OpenStep::Done(Ok(OpenFileResult { success: true, path: "open".to_string() }))
    );
}

#[test]
fn revealing_a_file() {
    assert_eq!(
        show_in_explorer(Platform::Windows, "C:\\docs\\a.pdf"),
        Some(command("explorer", &["/select,", "C:\\docs\\a.pdf"]))
    );
    assert_eq!(show_in_explorer(Platform::MacOs, "/docs/a.pdf"), Some(command("open", &["-R", "/docs/a.pdf"])));
    assert_eq!(show_in_explorer(Platform::Linux, "/docs/sub/a.pdf"), Some(command("xdg-open", &["/docs/sub"])));
    assert_eq!(show_in_explorer(Platform::Linux, "a.pdf"), Some(command("xdg-open", &[""])));
    assert_eq!(show_in_explorer(Platform::Linux, "/"), None);
    assert_eq!(no_parent_message(), "Не удалось получить родительскую директорию");
    assert_eq!(reveal_failure_message(Platform::Windows, "e"), "Не удалось открыть проводник: e");
    assert_eq!(reveal_failure_message(Platform::MacOs, "e"), "Не удалось открыть Finder: e");
    assert_eq!(reveal_failure_message(Platform::Linux, "e"), "Не удалось открыть файловый менеджер: e");
}

#[test]
fn choosing_a_program() {
    assert_eq!(
        open_file_with(Platform::Windows, "C:\\a.pdf"),
        command("rundll32", &["shell32.dll,OpenAs_RunDLL", "C:\\a.pdf"])
    );
    assert_eq!(open_file_with(Platform::MacOs, "/a.pdf"), command("open", &["-a", "Choose Application", "/a.pdf"]));
    assert_eq!(open_file_with(Platform::Linux, "/a.pdf"), command("xdg-open", &["/a.pdf"]));
    assert_eq!(
        open_with_failure_message(Platform::Windows, "e"),
        "Не удалось открыть диалог 'Открыть с помощью': e"
    );
    assert_eq!(open_with_failure_message(Platform::MacOs, "e"), "Не удалось открыть диалог выбора приложения: e");
    assert_eq!(open_with_failure_message(Platform::Linux, "e"), "Не удалось открыть файл: e");
}
