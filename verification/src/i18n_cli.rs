//! Localization of the command-line front end: locale selection from an
//! environment value, status labels, summary labels, and the CLI's fixed
//! sentences. English is the fallback for any other language.
use vstd::prelude::*;

verus! {

use crate::decimal::{decimal_of, u64_to_decimal};
use crate::report::DiagnosisReport;
use crate::status::DriveHealthStatus;
use crate::strutil::{lower_of, lowercase, seq_starts_with, starts_with};

/// A display language of the command-line front end.
#[derive(Copy, Clone, PartialEq, Eq, Structural, Debug)]
pub enum Locale {
    En,
    ZhCn,
    ZhTw,
    Ja,
}

/// The locale that a lowercased environment value selects, if any.
pub open spec fn cli_locale_of(s: Seq<char>) -> Option<Locale> {
    if seq_starts_with(s, "zh-cn"@) || seq_starts_with(s, "zh_cn"@) || seq_starts_with(
        s,
        "zh-hans"@,
    ) {
        Some(Locale::ZhCn)
    } else if seq_starts_with(s, "zh-tw"@) || seq_starts_with(s, "zh_tw"@) || seq_starts_with(
        s,
        "zh-hant"@,
    ) || seq_starts_with(s, "zh-hk"@) {
        Some(Locale::ZhTw)
    } else if seq_starts_with(s, "ja"@) {
        Some(Locale::Ja)
    } else if seq_starts_with(s, "en"@) {
        Some(Locale::En)
    } else {
        None
    }
}

/// Selects the CLI locale for one environment value such as "ja_JP.UTF-8",
/// after lowercasing; `None` when the value names no supported language.
pub fn parse_locale(value: &str) -> (r: Option<Locale>)
    ensures
        r == cli_locale_of(lower_of(value@)),
{
    let lowered = lowercase(value);
    let locale = lowered.as_str();
    if starts_with(locale, "zh-cn") || starts_with(locale, "zh_cn") || starts_with(
        locale,
        "zh-hans",
    ) {
        return Some(Locale::ZhCn);
    }
    if starts_with(locale, "zh-tw") || starts_with(locale, "zh_tw") || starts_with(
        locale,
        "zh-hant",
    ) || starts_with(locale, "zh-hk") {
        return Some(Locale::ZhTw);
    }
    if starts_with(locale, "ja") {
        return Some(Locale::Ja);
    }
    if starts_with(locale, "en") {
        return Some(Locale::En);
    }
    None
}

/// The translation of a fixed CLI sentence: one rendering per locale.
pub open spec fn spec_cli_pick(
    locale: Locale,
    en: Seq<char>,
    zh_cn: Seq<char>,
    zh_tw: Seq<char>,
    ja: Seq<char>,
) -> Seq<char> {
    match locale {
        Locale::En => en,
        Locale::ZhCn => zh_cn,
        Locale::ZhTw => zh_tw,
        Locale::Ja => ja,
    }
}

fn cli_pick(
    locale: Locale,
    en: &'static str,
    zh_cn: &'static str,
    zh_tw: &'static str,
    ja: &'static str,
) -> (r: &'static str)
    ensures
        r@ == spec_cli_pick(locale, en@, zh_cn@, zh_tw@, ja@),
{
    match locale {
        Locale::En => en,
        Locale::ZhCn => zh_cn,
        Locale::ZhTw => zh_tw,
        Locale::Ja => ja,
    }
}

/// The localized one-word label of a health status.
pub open spec fn spec_status_label(locale: Locale, status: DriveHealthStatus) -> Seq<char> {
    match status {
        DriveHealthStatus::Healthy => spec_cli_pick(locale, "Healthy"@, "健康"@, "健康"@, "健全"@),
        DriveHealthStatus::FakeCapacity => spec_cli_pick(
            locale,
            "FakeCapacity"@,
            "虚假容量"@,
            "虛假容量"@,
            "偽容量"@,
        ),
        DriveHealthStatus::PhysicalCorruption => spec_cli_pick(
            locale,
            "PhysicalCorruption"@,
            "物理损坏"@,
            "實體損壞"@,
            "物理破損"@,
        ),
        DriveHealthStatus::DataLoss => spec_cli_pick(
            locale,
            "DataLoss"@,
            "数据丢失"@,
            "資料遺失"@,
            "データ損失"@,
        ),
    }
}

/// Labels a health status in the given locale.
pub fn status_label(locale: Locale, status: DriveHealthStatus) -> (r: &'static str)
    ensures
        r@ == spec_status_label(locale, status),
{
    match status {
        DriveHealthStatus::Healthy => cli_pick(locale, "Healthy", "健康", "健康", "健全"),
        DriveHealthStatus::FakeCapacity => cli_pick(
            locale,
            "FakeCapacity",
            "虚假容量",
            "虛假容量",
            "偽容量",
        ),
        DriveHealthStatus::PhysicalCorruption => cli_pick(
            locale,
            "PhysicalCorruption",
            "物理损坏",
            "實體損壞",
            "物理破損",
        ),
        DriveHealthStatus::DataLoss => cli_pick(
            locale,
            "DataLoss",
            "数据丢失",
            "資料遺失",
            "データ損失",
        ),
    }
}

/// The localized status-keyed base sentence of a CLI report conclusion.
pub open spec fn spec_cli_conclusion_base(locale: Locale, status: DriveHealthStatus) -> Seq<
    char,
> {
    match status {
        DriveHealthStatus::Healthy => spec_cli_pick(
            locale,
            "No inconsistencies detected."@,
            "未发现不一致。"@,
            "未發現不一致。"@,
            "不整合は検出されませんでした。"@,
        ),
        DriveHealthStatus::FakeCapacity => spec_cli_pick(
            locale,
            "Warning: detected zero-filled data; possible fake capacity."@,
            "警告：检测到全零数据，可能为虚假容量。"@,
            "警告：偵測到全零資料，可能為虛假容量。"@,
            "警告：ゼロ埋めデータを検出。偽容量の可能性があります。"@,
        ),
        DriveHealthStatus::PhysicalCorruption => spec_cli_pick(
            locale,
            "Warning: detected random corruption or inconsistent data."@,
            "警告：检测到随机损坏或不一致数据。"@,
            "警告：偵測到隨機損壞或不一致資料。"@,
            "警告：ランダムな破損または不整合なデータを検出しました。"@,
        ),
        DriveHealthStatus::DataLoss => spec_cli_pick(
            locale,
            "Warning: read errors or missing data detected."@,
            "警告：检测到读取错误或数据缺失。"@,
            "警告：偵測到讀取錯誤或資料遺失。"@,
            "警告：読み取りエラーまたはデータ欠落を検出しました。"@,
        ),
    }
}

fn cli_conclusion_base(locale: Locale, status: DriveHealthStatus) -> (r: &'static str)
    ensures
        r@ == spec_cli_conclusion_base(locale, status),
{
    match status {
        DriveHealthStatus::Healthy => cli_pick(
            locale,
            "No inconsistencies detected.",
            "未发现不一致。",
            "未發現不一致。",
            "不整合は検出されませんでした。",
        ),
        DriveHealthStatus::FakeCapacity => cli_pick(
            locale,
            "Warning: detected zero-filled data; possible fake capacity.",
            "警告：检测到全零数据，可能为虚假容量。",
            "警告：偵測到全零資料，可能為虛假容量。",
            "警告：ゼロ埋めデータを検出。偽容量の可能性があります。",
        ),
        DriveHealthStatus::PhysicalCorruption => cli_pick(
            locale,
            "Warning: detected random corruption or inconsistent data.",
            "警告：检测到随机损坏或不一致数据。",
            "警告：偵測到隨機損壞或不一致資料。",
            "警告：ランダムな破損または不整合なデータを検出しました。",
        ),
        DriveHealthStatus::DataLoss => cli_pick(
            locale,
            "Warning: read errors or missing data detected.",
            "警告：检测到读取错误或数据缺失。",
            "警告：偵測到讀取錯誤或資料遺失。",
            "警告：読み取りエラーまたはデータ欠落を検出しました。",
        ),
    }
}

/// The localized full CLI conclusion, with the error count and, when fewer
/// bytes were tested than the capacity, the early-termination note with both
/// byte counts.
pub open spec fn spec_cli_report_conclusion(
    locale: Locale,
    status: DriveHealthStatus,
    error_count: u64,
    tested_bytes: u64,
    total_capacity: u64,
) -> Seq<char> {
    let counted = spec_cli_conclusion_base(locale, status) + spec_cli_pick(
        locale,
        " Errors: "@,
        " 错误数："@,
        " 錯誤數："@,
        " エラー数："@,
    ) + decimal_of(error_count as nat) + spec_cli_pick(locale, "."@, "。"@, "。"@, "。"@);
    if tested_bytes < total_capacity {
        counted + spec_cli_pick(
            locale,
            " Verification ended early after "@,
            " 校验提前结束，已完成 "@,
            " 驗證提前結束，已完成 "@,
            " 検証は早期終了しました（"@,
        ) + decimal_of(tested_bytes as nat) + " / "@ + decimal_of(total_capacity as nat)
            + spec_cli_pick(locale, " bytes."@, " 字节。"@, " 位元組。"@, " バイト）。"@)
    } else {
        counted
    }
}

/// Renders a report's conclusion for the CLI in the given locale, per
/// [`spec_cli_report_conclusion`].
pub fn localize_report_conclusion(locale: Locale, report: &DiagnosisReport) -> (r: String)
    ensures
        r@ == spec_cli_report_conclusion(
            locale,
            report.status,
            report.error_count,
            report.tested_bytes,
            report.total_capacity,
        ),
{
    let mut s = String::from_str(cli_conclusion_base(locale, report.status));
    s.append(cli_pick(locale, " Errors: ", " 错误数：", " 錯誤數：", " エラー数："));
    s.append(u64_to_decimal(report.error_count).as_str());
    s.append(cli_pick(locale, ".", "。", "。", "。"));
    if report.tested_bytes < report.total_capacity {
        s.append(
            cli_pick(
                locale,
                " Verification ended early after ",
                " 校验提前结束，已完成 ",
                " 驗證提前結束，已完成 ",
                " 検証は早期終了しました（",
            ),
        );
        s.append(u64_to_decimal(report.tested_bytes).as_str());
        s.append(" / ");
        s.append(u64_to_decimal(report.total_capacity).as_str());
        s.append(cli_pick(locale, " bytes.", " 字节。", " 位元組。", " バイト）。"));
    }
    proof {
        assert(s@ =~= spec_cli_report_conclusion(
            locale,
            report.status,
            report.error_count,
            report.tested_bytes,
            report.total_capacity,
        ));
    }
    s
}

/// The title line of the diagnostic summary.
pub fn summary_title(locale: Locale) -> (r: &'static str)
    ensures
        r@ == spec_cli_pick(
            locale,
            "TruthByte Diagnostic Summary"@,
            "TruthByte 诊断汇总"@,
            "TruthByte 診斷摘要"@,
            "TruthByte 診断サマリー"@,
        ),
{
    cli_pick(
        locale,
        "TruthByte Diagnostic Summary",
        "TruthByte 诊断汇总",
        "TruthByte 診斷摘要",
        "TruthByte 診断サマリー",
    )
}

/// The health-score row label of the summary.
pub fn health_label(locale: Locale) -> (r: &'static str)
    ensures
        r@ == spec_cli_pick(locale, "Health Score"@, "健康评分"@, "健康評分"@, "健康スコア"@),
{
    cli_pick(locale, "Health Score", "健康评分", "健康評分", "健康スコア")
}

/// The tested-versus-valid row label of the summary.
pub fn tested_label(locale: Locale) -> (r: &'static str)
    ensures
        r@ == spec_cli_pick(locale, "Tested/Valid"@, "已测/有效"@, "已測/有效"@, "テスト/有効"@),
{
    cli_pick(locale, "Tested/Valid", "已测/有效", "已測/有效", "テスト/有効")
}

/// The total-target row label of the summary.
pub fn total_label(locale: Locale) -> (r: &'static str)
    ensures
        r@ == spec_cli_pick(locale, "Total Target"@, "目标总量"@, "目標總量"@, "総容量"@),
{
    cli_pick(locale, "Total Target", "目标总量", "目標總量", "総容量")
}

/// The status row label of the summary.
pub fn status_header(locale: Locale) -> (r: &'static str)
    ensures
        r@ == spec_cli_pick(locale, "Status"@, "状态"@, "狀態"@, "状態"@),
{
    cli_pick(locale, "Status", "状态", "狀態", "状態")
}

/// The conclusion row label of the summary.
pub fn conclusion_header(locale: Locale) -> (r: &'static str)
    ensures
        r@ == spec_cli_pick(locale, "Conclusion"@, "结论"@, "結論"@, "結論"@),
{
    cli_pick(locale, "Conclusion", "结论", "結論", "結論")
}

/// The CLI's introduction line.
pub fn cli_intro(locale: Locale) -> (r: &'static str)
    ensures
        r@ == spec_cli_pick(
            locale,
            "TruthByte - USB write/verify tool."@,
            "TruthByte - U盘写入/校验工具。"@,
            "TruthByte - USB 寫入/驗證工具。"@,
            "TruthByte - USB書き込み/検証ツール。"@,
        ),
{
    cli_pick(
        locale,
        "TruthByte - USB write/verify tool.",
        "TruthByte - U盘写入/校验工具。",
        "TruthByte - USB 寫入/驗證工具。",
        "TruthByte - USB書き込み/検証ツール。",
    )
}

/// The usage line, with the binary's name in place.
pub fn cli_usage(locale: Locale, binary: &str) -> (r: String)
    ensures
        r@ == spec_cli_pick(locale, "Usage: "@, "用法: "@, "用法: "@, "使い方: "@) + binary@
            + " <file_path> [size_limit_mb] [--force]"@,
{
    let mut s = String::from_str(cli_pick(locale, "Usage: ", "用法: ", "用法: ", "使い方: "));
    s.append(binary);
    s.append(" <file_path> [size_limit_mb] [--force]");
    s
}

/// The example line, with the binary's name in place.
pub fn cli_example(locale: Locale, binary: &str) -> (r: String)
    ensures
        r@ == spec_cli_pick(locale, "Example: "@, "示例: "@, "示例: "@, "例: "@) + binary@
            + " /Volumes/USB/test.dat 1024 --force"@,
{
    let mut s = String::from_str(cli_pick(locale, "Example: ", "示例: ", "示例: ", "例: "));
    s.append(binary);
    s.append(" /Volumes/USB/test.dat 1024 --force");
    s
}

/// The note that the size limit is optional.
pub fn cli_note(locale: Locale) -> (r: &'static str)
    ensures
        r@ == spec_cli_pick(
            locale,
            "Note: size_limit_mb is optional; 0 means no limit."@,
            "说明: size_limit_mb 可选；0 表示不限制。"@,
            "說明: size_limit_mb 可選；0 表示不限制。"@,
            "注: size_limit_mb は任意。0 は無制限。"@,
        ),
{
    cli_pick(
        locale,
        "Note: size_limit_mb is optional; 0 means no limit.",
        "说明: size_limit_mb 可选；0 表示不限制。",
        "說明: size_limit_mb 可選；0 表示不限制。",
        "注: size_limit_mb は任意。0 は無制限。",
    )
}

/// The unexpected-argument error label.
pub fn cli_unexpected_arg(locale: Locale) -> (r: &'static str)
    ensures
        r@ == spec_cli_pick(
            locale,
            "Unexpected argument"@,
            "未知参数"@,
            "未知參數"@,
            "想定外の引数"@,
        ),
{
    cli_pick(locale, "Unexpected argument", "未知参数", "未知參數", "想定外の引数")
}

/// The invalid-size-limit error label.
pub fn cli_invalid_limit(locale: Locale) -> (r: &'static str)
    ensures
        r@ == spec_cli_pick(
            locale,
            "Invalid size_limit_mb"@,
            "size_limit_mb 无效"@,
            "size_limit_mb 無效"@,
            "size_limit_mb が無効です"@,
        ),
{
    cli_pick(
        locale,
        "Invalid size_limit_mb",
        "size_limit_mb 无效",
        "size_limit_mb 無效",
        "size_limit_mb が無効です",
    )
}

/// The target-is-a-directory error label.
pub fn cli_target_is_dir(locale: Locale) -> (r: &'static str)
    ensures
        r@ == spec_cli_pick(
            locale,
            "Target path is a directory"@,
            "目标路径是目录"@,
            "目標路徑是目錄"@,
            "対象パスはディレクトリです"@,
        ),
{
    cli_pick(
        locale,
        "Target path is a directory",
        "目标路径是目录",
        "目標路徑是目錄",
        "対象パスはディレクトリです",
    )
}

/// The overwrite-confirmation prompt, with the target path in place.
pub fn cli_overwrite_prompt(locale: Locale, file_path: &str) -> (r: String)
    ensures
        r@ == spec_cli_pick(locale, "[WARN] "@, "[WARN] "@, "[WARN] "@, "[WARN] "@) + file_path@
            + spec_cli_pick(
            locale,
            " exists and will be overwritten. Continue? [y/N]: "@,
            " 已存在，将被覆盖。继续? [y/N]: "@,
            " 已存在，將被覆寫。繼續? [y/N]: "@,
            " は既に存在し、上書きされます。続行しますか? [y/N]: "@,
        ),
{
    let mut s = String::from_str(cli_pick(locale, "[WARN] ", "[WARN] ", "[WARN] ", "[WARN] "));
    s.append(file_path);
    s.append(
        cli_pick(
            locale,
            " exists and will be overwritten. Continue? [y/N]: ",
            " 已存在，将被覆盖。继续? [y/N]: ",
            " 已存在，將被覆寫。繼續? [y/N]: ",
            " は既に存在し、上書きされます。続行しますか? [y/N]: ",
        ),
    );
    s
}

/// The prompt-flush failure sentence.
pub fn cli_prompt_flush_failed(locale: Locale) -> (r: &'static str)
    ensures
        r@ == spec_cli_pick(
            locale,
            "Failed to prompt for confirmation."@,
            "提示确认失败。"@,
            "提示確認失敗。"@,
            "確認のプロンプトに失敗しました。"@,
        ),
{
    cli_pick(
        locale,
        "Failed to prompt for confirmation.",
        "提示确认失败。",
        "提示確認失敗。",
        "確認のプロンプトに失敗しました。",
    )
}

/// The confirmation-read failure sentence.
pub fn cli_prompt_read_failed(locale: Locale) -> (r: &'static str)
    ensures
        r@ == spec_cli_pick(
            locale,
            "Failed to read confirmation."@,
            "读取确认失败。"@,
            "讀取確認失敗。"@,
            "確認の読み取りに失敗しました。"@,
        ),
{
    cli_pick(
        locale,
        "Failed to read confirmation.",
        "读取确认失败。",
        "讀取確認失敗。",
        "確認の読み取りに失敗しました。",
    )
}

/// The user-aborted sentence.
pub fn cli_user_aborted(locale: Locale) -> (r: &'static str)
    ensures
        r@ == spec_cli_pick(
            locale,
            "Aborted by user."@,
            "用户已取消。"@,
            "使用者已取消。"@,
            "ユーザーが中止しました。"@,
        ),
{
    cli_pick(
        locale,
        "Aborted by user.",
        "用户已取消。",
        "使用者已取消。",
        "ユーザーが中止しました。",
    )
}

/// The nothing-written sentence.
pub fn cli_no_data_written(locale: Locale) -> (r: &'static str)
    ensures
        r@ == spec_cli_pick(
            locale,
            "No data written; verify phase skipped."@,
            "未写入数据；已跳过校验阶段。"@,
            "未寫入資料；已跳過驗證階段。"@,
            "データが書き込まれていないため、検証フェーズをスキップしました。"@,
        ),
{
    cli_pick(
        locale,
        "No data written; verify phase skipped.",
        "未写入数据；已跳过校验阶段。",
        "未寫入資料；已跳過驗證階段。",
        "データが書き込まれていないため、検証フェーズをスキップしました。",
    )
}

/// The write-phase failure label.
pub fn cli_write_phase_failed(locale: Locale) -> (r: &'static str)
    ensures
        r@ == spec_cli_pick(
            locale,
            "Write phase failed"@,
            "写入阶段失败"@,
            "寫入階段失敗"@,
            "書き込みフェーズに失敗しました"@,
        ),
{
    cli_pick(
        locale,
        "Write phase failed",
        "写入阶段失败",
        "寫入階段失敗",
        "書き込みフェーズに失敗しました",
    )
}

/// The verify-phase failure label.
pub fn cli_verify_phase_failed(locale: Locale) -> (r: &'static str)
    ensures
        r@ == spec_cli_pick(
            locale,
            "Verify phase failed"@,
            "校验阶段失败"@,
            "驗證階段失敗"@,
            "検証フェーズに失敗しました"@,
        ),
{
    cli_pick(
        locale,
        "Verify phase failed",
        "校验阶段失败",
        "驗證階段失敗",
        "検証フェーズに失敗しました",
    )
}

} // verus!
