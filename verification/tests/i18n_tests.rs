use truthbyte::i18n::{localize_conclusion, localize_error, localize_report_conclusion, Locale};
use truthbyte::i18n_cli;
use truthbyte::report::generate_report;
use truthbyte::status::DriveHealthStatus;

#[test]
fn from_tag_normalizes_case_and_whitespace() {
    assert!(matches!(Locale::from_tag("zh-CN"), Locale::ZhCn));
    assert!(matches!(Locale::from_tag("ZH-HANT-TW"), Locale::ZhTw));
    assert!(matches!(Locale::from_tag("  JA-jp  "), Locale::Ja));
    assert!(matches!(Locale::from_tag("ko-KR"), Locale::Ko));
    assert!(matches!(Locale::from_tag("es"), Locale::Es));
    assert!(matches!(Locale::from_tag("fr-FR"), Locale::Fr));
    assert!(matches!(Locale::from_tag("de"), Locale::De));
    assert!(matches!(Locale::from_tag("ru"), Locale::Ru));
    assert!(matches!(Locale::from_tag("pt-BR"), Locale::En));
}

#[test]
fn localize_error_translates_fixed_sentences() {
    assert_eq!(
        localize_error(Locale::Ja, "Diagnosis is already running."),
        "診断は既に実行中です。"
    );
    assert_eq!(
        localize_error(Locale::Es, "No active diagnosis to stop."),
        "No hay un diagnóstico activo para detener."
    );
    assert_eq!(
        localize_error(Locale::ZhCn, "Parent directory does not exist."),
        "上级目录不存在。"
    );
}

#[test]
fn localize_error_translates_labeled_details() {
    assert_eq!(
        localize_error(
            Locale::De,
            "Verify phase failed: Parent directory does not exist."
        ),
        "Die Verifizierungsphase ist fehlgeschlagen: Das übergeordnete Verzeichnis existiert nicht."
    );
    assert_eq!(
        localize_error(Locale::Fr, "Failed to sync data: device gone"),
        "Échec de la synchronisation des données: device gone"
    );
}

#[test]
fn localize_error_translates_offset_failures() {
    assert_eq!(
        localize_error(Locale::Ja, "Write failure at offset 123: no space"),
        "オフセットで書き込み失敗 123: no space"
    );
    assert_eq!(
        localize_error(
            Locale::Ru,
            "Unable to seek past read failure at offset 77: io"
        ),
        "Не удалось продолжить после ошибки чтения на смещении 77: io"
    );
}

#[test]
fn localize_error_passes_unknown_messages_through() {
    assert_eq!(
        localize_error(Locale::Ja, "Some other error"),
        "Some other error"
    );
    // A labeled shape without its separator is not translated.
    assert_eq!(
        localize_error(Locale::Ja, "Write failure at offset 123"),
        "Write failure at offset 123"
    );
}

#[test]
fn localize_conclusion_translates_skip_notice() {
    assert_eq!(
        localize_conclusion(Locale::Ko, "No data written; verification skipped."),
        "데이터가 기록되지 않아 검증을 건너뛰었습니다."
    );
    assert_eq!(localize_conclusion(Locale::Ko, "anything else"), "anything else");
}

#[test]
fn localized_report_conclusion_renders_counts() {
    let report = generate_report(8192, 4096, 0, 2, 0, None);
    assert_eq!(
        localize_report_conclusion(Locale::En, &report),
        "Warning: detected random corruption or inconsistent data. Errors: 2. \
         Verification ended early after 4096 / 8192 bytes."
    );
    assert_eq!(
        localize_report_conclusion(Locale::ZhCn, &report),
        "警告：检测到随机损坏或不一致数据。 错误数：2。 校验提前结束，已完成 4096 / 8192 字节。"
    );
}

#[test]
fn cli_parse_locale_recognizes_env_values() {
    assert!(matches!(
        i18n_cli::parse_locale("zh_CN.UTF-8"),
        Some(i18n_cli::Locale::ZhCn)
    ));
    assert!(matches!(
        i18n_cli::parse_locale("ja_JP"),
        Some(i18n_cli::Locale::Ja)
    ));
    assert!(matches!(
        i18n_cli::parse_locale("en_US.UTF-8"),
        Some(i18n_cli::Locale::En)
    ));
    assert!(i18n_cli::parse_locale("C").is_none());
}

#[test]
fn cli_status_labels() {
    assert_eq!(
        i18n_cli::status_label(i18n_cli::Locale::En, DriveHealthStatus::FakeCapacity),
        "FakeCapacity"
    );
    assert_eq!(
        i18n_cli::status_label(i18n_cli::Locale::ZhTw, DriveHealthStatus::DataLoss),
        "資料遺失"
    );
    assert_eq!(
        i18n_cli::status_label(i18n_cli::Locale::Ja, DriveHealthStatus::Healthy),
        "健全"
    );
}

#[test]
fn cli_report_conclusion_localizes() {
    let report = generate_report(1000, 1000, 1000, 0, 0, None);
    assert_eq!(
        i18n_cli::localize_report_conclusion(i18n_cli::Locale::Ja, &report),
        "不整合は検出されませんでした。 エラー数：0。"
    );
}

#[test]
fn cli_fixed_sentences() {
    assert_eq!(
        i18n_cli::summary_title(i18n_cli::Locale::En),
        "TruthByte Diagnostic Summary"
    );
    assert_eq!(i18n_cli::health_label(i18n_cli::Locale::ZhCn), "健康评分");
    assert_eq!(i18n_cli::tested_label(i18n_cli::Locale::En), "Tested/Valid");
    assert_eq!(i18n_cli::total_label(i18n_cli::Locale::Ja), "総容量");
    assert_eq!(i18n_cli::status_header(i18n_cli::Locale::En), "Status");
    assert_eq!(i18n_cli::conclusion_header(i18n_cli::Locale::En), "Conclusion");
    assert_eq!(
        i18n_cli::cli_intro(i18n_cli::Locale::En),
        "TruthByte - USB write/verify tool."
    );
    assert_eq!(
        i18n_cli::cli_note(i18n_cli::Locale::En),
        "Note: size_limit_mb is optional; 0 means no limit."
    );
    assert_eq!(
        i18n_cli::cli_unexpected_arg(i18n_cli::Locale::En),
        "Unexpected argument"
    );
    assert_eq!(
        i18n_cli::cli_invalid_limit(i18n_cli::Locale::En),
        "Invalid size_limit_mb"
    );
    assert_eq!(
        i18n_cli::cli_target_is_dir(i18n_cli::Locale::En),
        "Target path is a directory"
    );
    assert_eq!(
        i18n_cli::cli_prompt_flush_failed(i18n_cli::Locale::En),
        "Failed to prompt for confirmation."
    );
    assert_eq!(
        i18n_cli::cli_prompt_read_failed(i18n_cli::Locale::En),
        "Failed to read confirmation."
    );
    assert_eq!(
        i18n_cli::cli_user_aborted(i18n_cli::Locale::En),
        "Aborted by user."
    );
    assert_eq!(
        i18n_cli::cli_no_data_written(i18n_cli::Locale::En),
        "No data written; verify phase skipped."
    );
    assert_eq!(
        i18n_cli::cli_write_phase_failed(i18n_cli::Locale::En),
        "Write phase failed"
    );
    assert_eq!(
        i18n_cli::cli_verify_phase_failed(i18n_cli::Locale::En),
        "Verify phase failed"
    );
}

#[test]
fn cli_templates_take_the_binary_name() {
    assert_eq!(
        i18n_cli::cli_usage(i18n_cli::Locale::En, "truthbyte"),
        "Usage: truthbyte <file_path> [size_limit_mb] [--force]"
    );
    assert_eq!(
        i18n_cli::cli_example(i18n_cli::Locale::Ja, "tb"),
        "例: tb /Volumes/USB/test.dat 1024 --force"
    );
    assert_eq!(
        i18n_cli::cli_overwrite_prompt(i18n_cli::Locale::En, "a.dat"),
        "[WARN] a.dat exists and will be overwritten. Continue? [y/N]: "
    );
}
