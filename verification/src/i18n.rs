//! Localization of engine messages for a graphical shell: locale detection
//! from a language tag, and translation of the engine's error sentences and
//! report conclusions.
use vstd::prelude::*;

verus! {

use crate::report::DiagnosisReport;
use crate::decimal::{decimal_of, u64_to_decimal};
use crate::status::DriveHealthStatus;
use crate::strutil::{
    first_sep_index,
    has_sep,
    lemma_first_sep_unique,
    lower_of,
    lowercase,
    sep_head,
    sep_tail,
    seq_starts_with,
    split_once_sep,
    starts_with,
    str_eq,
    strip_prefix_str,
    trim,
    trim_of,
};

/// A display language.
#[derive(Clone, Copy, PartialEq, Eq, Structural, Debug)]
pub enum Locale {
    En,
    Es,
    Fr,
    De,
    Ru,
    Ko,
    ZhCn,
    ZhTw,
    Ja,
}

/// The locale that a normalized (trimmed, lowercased) language tag selects.
pub open spec fn locale_of(s: Seq<char>) -> Locale {
    if seq_starts_with(s, "zh-cn"@) || seq_starts_with(s, "zh-hans"@) {
        Locale::ZhCn
    } else if seq_starts_with(s, "zh-tw"@) || seq_starts_with(s, "zh-hant"@) || seq_starts_with(
        s,
        "zh-hk"@,
    ) {
        Locale::ZhTw
    } else if seq_starts_with(s, "ja"@) {
        Locale::Ja
    } else if seq_starts_with(s, "ko"@) {
        Locale::Ko
    } else if seq_starts_with(s, "es"@) {
        Locale::Es
    } else if seq_starts_with(s, "fr"@) {
        Locale::Fr
    } else if seq_starts_with(s, "de"@) {
        Locale::De
    } else if seq_starts_with(s, "ru"@) {
        Locale::Ru
    } else {
        Locale::En
    }
}

pub open spec fn spec_from_tag(tag: Seq<char>) -> Locale {
    locale_of(lower_of(trim_of(tag)))
}

impl Locale {
    /// Selects the locale for a language tag such as "zh-CN" or "ja-JP",
    /// after trimming and lowercasing; English is the fallback.
    pub fn from_tag(tag: &str) -> (r: Self)
        ensures
            r == spec_from_tag(tag@),
    {
        let normalized = lowercase(trim(tag));
        let n = normalized.as_str();
        if starts_with(n, "zh-cn") || starts_with(n, "zh-hans") {
            return Self::ZhCn;
        }
        if starts_with(n, "zh-tw") || starts_with(n, "zh-hant") || starts_with(n, "zh-hk") {
            return Self::ZhTw;
        }
        if starts_with(n, "ja") {
            return Self::Ja;
        }
        if starts_with(n, "ko") {
            return Self::Ko;
        }
        if starts_with(n, "es") {
            return Self::Es;
        }
        if starts_with(n, "fr") {
            return Self::Fr;
        }
        if starts_with(n, "de") {
            return Self::De;
        }
        if starts_with(n, "ru") {
            return Self::Ru;
        }
        Self::En
    }
}

/// The translation of a fixed sentence: one rendering per locale.
pub open spec fn spec_pick(
    locale: Locale,
    en: Seq<char>,
    es: Seq<char>,
    fr: Seq<char>,
    de: Seq<char>,
    ru: Seq<char>,
    ko: Seq<char>,
    zh_cn: Seq<char>,
    zh_tw: Seq<char>,
    ja: Seq<char>,
) -> Seq<char> {
    match locale {
        Locale::En => en,
        Locale::Es => es,
        Locale::Fr => fr,
        Locale::De => de,
        Locale::Ru => ru,
        Locale::Ko => ko,
        Locale::ZhCn => zh_cn,
        Locale::ZhTw => zh_tw,
        Locale::Ja => ja,
    }
}

fn pick(
    locale: Locale,
    en: &'static str,
    es: &'static str,
    fr: &'static str,
    de: &'static str,
    ru: &'static str,
    ko: &'static str,
    zh_cn: &'static str,
    zh_tw: &'static str,
    ja: &'static str,
) -> (r: &'static str)
    ensures
        r@ == spec_pick(locale, en@, es@, fr@, de@, ru@, ko@, zh_cn@, zh_tw@, ja@),
{
    match locale {
        Locale::En => en,
        Locale::Es => es,
        Locale::Fr => fr,
        Locale::De => de,
        Locale::Ru => ru,
        Locale::Ko => ko,
        Locale::ZhCn => zh_cn,
        Locale::ZhTw => zh_tw,
        Locale::Ja => ja,
    }
}

/// The translation of the missing-parent-directory sentence.
pub open spec fn t_parent_missing(locale: Locale) -> Seq<char> {
    spec_pick(
        locale,
        "Parent directory does not exist."@,
        "El directorio padre no existe."@,
        "Le répertoire parent n'existe pas."@,
        "Das übergeordnete Verzeichnis existiert nicht."@,
        "Родительский каталог не существует."@,
        "상위 디렉터리가 존재하지 않습니다."@,
        "上级目录不存在。"@,
        "上層目錄不存在。"@,
        "親ディレクトリが存在しません。"@,
    )
}

fn parent_missing_text(locale: Locale) -> (r: &'static str)
    ensures
        r@ == t_parent_missing(locale),
{
    pick(
        locale,
        "Parent directory does not exist.",
        "El directorio padre no existe.",
        "Le répertoire parent n'existe pas.",
        "Das übergeordnete Verzeichnis existiert nicht.",
        "Родительский каталог не существует.",
        "상위 디렉터리가 존재하지 않습니다.",
        "上级目录不存在。",
        "上層目錄不存在。",
        "親ディレクトリが存在しません。",
    )
}

/// An error detail is translated when it is the missing-parent-directory
/// sentence; any other detail passes through unchanged.
pub open spec fn spec_localize_detail(locale: Locale, detail: Seq<char>) -> Seq<char> {
    if detail == "Parent directory does not exist."@ {
        t_parent_missing(locale)
    } else {
        detail
    }
}

fn localize_detail(locale: Locale, detail: &str) -> (r: String)
    ensures
        r@ == spec_localize_detail(locale, detail@),
{
    if str_eq(detail, "Parent directory does not exist.") {
        String::from_str(parent_missing_text(locale))
    } else {
        String::from_str(detail)
    }
}

fn labeled_detail(locale: Locale, label: &str, detail: &str) -> (r: String)
    ensures
        r@ == label@ + ": "@ + spec_localize_detail(locale, detail@),
{
    let mut s = String::from_str(label);
    s.append(": ");
    s.append(localize_detail(locale, detail).as_str());
    s
}

fn labeled_offset_detail(locale: Locale, label: &str, offset_part: &str, detail: &str) -> (r:
    String)
    ensures
        r@ == label@ + " "@ + offset_part@ + ": "@ + spec_localize_detail(locale, detail@),
{
    let mut s = String::from_str(label);
    s.append(" ");
    s.append(offset_part);
    s.append(": ");
    s.append(localize_detail(locale, detail).as_str());
    s
}

/// The suffix of `s` after the prefix `p`.
pub open spec fn suffix_after(s: Seq<char>, p: Seq<char>) -> Seq<char> {
    s.subrange(p.len() as int, s.len() as int)
}

/// The translation of one engine error message: the fixed sentences and the
/// labeled sentence shapes are translated, anything else passes through.
pub open spec fn spec_localize_error(locale: Locale, msg: Seq<char>) -> Seq<char> {
    if msg == "Diagnosis is already running."@ {
        spec_pick(
            locale,
            "Diagnosis is already running."@,
            "El diagnóstico ya se está ejecutando."@,
            "Le diagnostic est déjà en cours."@,
            "Die Diagnose läuft bereits."@,
            "Диагностика уже выполняется."@,
            "진단이 이미 실행 중입니다."@,
            "诊断已在运行中。"@,
            "診斷已在執行中。"@,
            "診断は既に実行中です。"@,
        )
    } else if msg == "No active diagnosis to stop."@ {
        spec_pick(
            locale,
            "No active diagnosis to stop."@,
            "No hay un diagnóstico activo para detener."@,
            "Aucun diagnostic actif à arrêter."@,
            "Es gibt keine aktive Diagnose zum Stoppen."@,
            "Нет активной диагностики для остановки."@,
            "중지할 활성 진단이 없습니다."@,
            "没有正在运行的诊断可停止。"@,
            "沒有正在執行的診斷可停止。"@,
            "停止できる診断は実行中ではありません。"@,
        )
    } else if msg == "Parent directory does not exist."@ {
        t_parent_missing(locale)
    } else if seq_starts_with(msg, "Verify phase failed: "@) {
        spec_pick(
            locale,
            "Verify phase failed"@,
            "La fase de verificación falló"@,
            "La phase de vérification a échoué"@,
            "Die Verifizierungsphase ist fehlgeschlagen"@,
            "Сбой на этапе проверки"@,
            "검증 단계 실패"@,
            "校验阶段失败"@,
            "驗證階段失敗"@,
            "検証フェーズに失敗しました"@,
        ) + ": "@ + spec_localize_detail(locale, suffix_after(msg, "Verify phase failed: "@))
    } else if seq_starts_with(msg, "Write phase failed: "@) {
        spec_pick(
            locale,
            "Write phase failed"@,
            "La fase de escritura falló"@,
            "La phase d'écriture a échoué"@,
            "Die Schreibphase ist fehlgeschlagen"@,
            "Сбой на этапе записи"@,
            "쓰기 단계 실패"@,
            "写入阶段失败"@,
            "寫入階段失敗"@,
            "書き込みフェーズに失敗しました"@,
        ) + ": "@ + spec_localize_detail(locale, suffix_after(msg, "Write phase failed: "@))
    } else if seq_starts_with(msg, "Unable to open target for writing: "@) {
        spec_pick(
            locale,
            "Unable to open target for writing"@,
            "No se pudo abrir el destino para escritura"@,
            "Impossible d'ouvrir la cible en écriture"@,
            "Ziel konnte nicht zum Schreiben geöffnet werden"@,
            "Не удалось открыть цель для записи"@,
            "쓰기 위해 대상을 열 수 없습니다"@,
            "无法打开目标进行写入"@,
            "無法開啟目標以寫入"@,
            "書き込み用に対象を開けません"@,
        ) + ": "@ + spec_localize_detail(
            locale,
            suffix_after(msg, "Unable to open target for writing: "@),
        )
    } else if seq_starts_with(msg, "Unable to open target for reading: "@) {
        spec_pick(
            locale,
            "Unable to open target for reading"@,
            "No se pudo abrir el destino para lectura"@,
            "Impossible d'ouvrir la cible en lecture"@,
            "Ziel konnte nicht zum Lesen geöffnet werden"@,
            "Не удалось открыть цель для чтения"@,
            "읽기 위해 대상을 열 수 없습니다"@,
            "无法打开目标进行读取"@,
            "無法開啟目標以讀取"@,
            "読み取り用に対象を開けません"@,
        ) + ": "@ + spec_localize_detail(
            locale,
            suffix_after(msg, "Unable to open target for reading: "@),
        )
    } else if seq_starts_with(msg, "Failed to sync data: "@) {
        spec_pick(
            locale,
            "Failed to sync data"@,
            "No se pudieron sincronizar los datos"@,
            "Échec de la synchronisation des données"@,
            "Daten konnten nicht synchronisiert werden"@,
            "Не удалось синхронизировать данные"@,
            "데이터 동기화 실패"@,
            "同步数据失败"@,
            "同步資料失敗"@,
            "データの同期に失敗しました"@,
        ) + ": "@ + spec_localize_detail(locale, suffix_after(msg, "Failed to sync data: "@))
    } else if seq_starts_with(msg, "Write failure at offset "@) && has_sep(
        suffix_after(msg, "Write failure at offset "@),
    ) {
        let rest = suffix_after(msg, "Write failure at offset "@);
        spec_pick(
            locale,
            "Write failure at offset"@,
            "Fallo de escritura en el desplazamiento"@,
            "Échec d'écriture à l'octet"@,
            "Schreibfehler bei Offset"@,
            "Сбой записи на смещении"@,
            "오프셋에서 쓰기 실패"@,
            "写入失败，偏移"@,
            "寫入失敗，位移"@,
            "オフセットで書き込み失敗"@,
        ) + " "@ + sep_head(rest) + ": "@ + spec_localize_detail(locale, sep_tail(rest))
    } else if seq_starts_with(msg, "Unable to seek past read failure at offset "@) && has_sep(
        suffix_after(msg, "Unable to seek past read failure at offset "@),
    ) {
        let rest = suffix_after(msg, "Unable to seek past read failure at offset "@);
        spec_pick(
            locale,
            "Unable to seek past read failure at offset"@,
            "No se pudo avanzar después del fallo de lectura en el desplazamiento"@,
            "Impossible de dépasser l'échec de lecture à l'octet"@,
            "Nach dem Lesefehler bei Offset konnte nicht weitergesucht werden"@,
            "Не удалось продолжить после ошибки чтения на смещении"@,
            "오프셋에서 읽기 실패 이후로 이동할 수 없습니다"@,
            "无法越过读取失败位置，偏移"@,
            "無法越過讀取失敗位置，位移"@,
            "読み取り失敗位置を超えてシークできません"@,
        ) + " "@ + sep_head(rest) + ": "@ + spec_localize_detail(locale, sep_tail(rest))
    } else {
        msg
    }
}

/// Translates one engine error message, per [`spec_localize_error`].
pub fn localize_error(locale: Locale, message: &str) -> (r: String)
    ensures
        r@ == spec_localize_error(locale, message@),
{
    if str_eq(message, "Diagnosis is already running.") {
        return String::from_str(
            pick(
                locale,
                "Diagnosis is already running.",
                "El diagnóstico ya se está ejecutando.",
                "Le diagnostic est déjà en cours.",
                "Die Diagnose läuft bereits.",
                "Диагностика уже выполняется.",
                "진단이 이미 실행 중입니다.",
                "诊断已在运行中。",
                "診斷已在執行中。",
                "診断は既に実行中です。",
            ),
        );
    }
    if str_eq(message, "No active diagnosis to stop.") {
        return String::from_str(
            pick(
                locale,
                "No active diagnosis to stop.",
                "No hay un diagnóstico activo para detener.",
                "Aucun diagnostic actif à arrêter.",
                "Es gibt keine aktive Diagnose zum Stoppen.",
                "Нет активной диагностики для остановки.",
                "중지할 활성 진단이 없습니다.",
                "没有正在运行的诊断可停止。",
                "沒有正在執行的診斷可停止。",
                "停止できる診断は実行中ではありません。",
            ),
        );
    }
    if str_eq(message, "Parent directory does not exist.") {
        return String::from_str(parent_missing_text(locale));
    }
    if let Some(detail) = strip_prefix_str(message, "Verify phase failed: ") {
        let label = pick(
            locale,
            "Verify phase failed",
            "La fase de verificación falló",
            "La phase de vérification a échoué",
            "Die Verifizierungsphase ist fehlgeschlagen",
            "Сбой на этапе проверки",
            "검증 단계 실패",
            "校验阶段失败",
            "驗證階段失敗",
            "検証フェーズに失敗しました",
        );
        return labeled_detail(locale, label, detail);
    }
    if let Some(detail) = strip_prefix_str(message, "Write phase failed: ") {
        let label = pick(
            locale,
            "Write phase failed",
            "La fase de escritura falló",
            "La phase d'écriture a échoué",
            "Die Schreibphase ist fehlgeschlagen",
            "Сбой на этапе записи",
            "쓰기 단계 실패",
            "写入阶段失败",
            "寫入階段失敗",
            "書き込みフェーズに失敗しました",
        );
        return labeled_detail(locale, label, detail);
    }
    if let Some(detail) = strip_prefix_str(message, "Unable to open target for writing: ") {
        let label = pick(
            locale,
            "Unable to open target for writing",
            "No se pudo abrir el destino para escritura",
            "Impossible d'ouvrir la cible en écriture",
            "Ziel konnte nicht zum Schreiben geöffnet werden",
            "Не удалось открыть цель для записи",
            "쓰기 위해 대상을 열 수 없습니다",
            "无法打开目标进行写入",
            "無法開啟目標以寫入",
            "書き込み用に対象を開けません",
        );
        return labeled_detail(locale, label, detail);
    }
    if let Some(detail) = strip_prefix_str(message, "Unable to open target for reading: ") {
        let label = pick(
            locale,
            "Unable to open target for reading",
            "No se pudo abrir el destino para lectura",
            "Impossible d'ouvrir la cible en lecture",
            "Ziel konnte nicht zum Lesen geöffnet werden",
            "Не удалось открыть цель для чтения",
            "읽기 위해 대상을 열 수 없습니다",
            "无法打开目标进行读取",
            "無法開啟目標以讀取",
            "読み取り用に対象を開けません",
        );
        return labeled_detail(locale, label, detail);
    }
    if let Some(detail) = strip_prefix_str(message, "Failed to sync data: ") {
        let label = pick(
            locale,
            "Failed to sync data",
            "No se pudieron sincronizar los datos",
            "Échec de la synchronisation des données",
            "Daten konnten nicht synchronisiert werden",
            "Не удалось синхронизировать данные",
            "데이터 동기화 실패",
            "同步数据失败",
            "同步資料失敗",
            "データの同期に失敗しました",
        );
        return labeled_detail(locale, label, detail);
    }
    if let Some(rest) = strip_prefix_str(message, "Write failure at offset ") {
        if let Some((offset_part, detail)) = split_once_sep(rest) {
            proof {
                lemma_first_sep_unique(rest@, offset_part@.len() as int);
            }
            let label = pick(
                locale,
                "Write failure at offset",
                "Fallo de escritura en el desplazamiento",
                "Échec d'écriture à l'octet",
                "Schreibfehler bei Offset",
                "Сбой записи на смещении",
                "오프셋에서 쓰기 실패",
                "写入失败，偏移",
                "寫入失敗，位移",
                "オフセットで書き込み失敗",
            );
            return labeled_offset_detail(locale, label, offset_part, detail);
        }
    }
    if let Some(rest) = strip_prefix_str(message, "Unable to seek past read failure at offset ") {
        if let Some((offset_part, detail)) = split_once_sep(rest) {
            proof {
                lemma_first_sep_unique(rest@, offset_part@.len() as int);
            }
            let label = pick(
                locale,
                "Unable to seek past read failure at offset",
                "No se pudo avanzar después del fallo de lectura en el desplazamiento",
                "Impossible de dépasser l'échec de lecture à l'octet",
                "Nach dem Lesefehler bei Offset konnte nicht weitergesucht werden",
                "Не удалось продолжить после ошибки чтения на смещении",
                "오프셋에서 읽기 실패 이후로 이동할 수 없습니다",
                "无法越过读取失败位置，偏移",
                "無法越過讀取失敗位置，位移",
                "読み取り失敗位置を超えてシークできません",
            );
            return labeled_offset_detail(locale, label, offset_part, detail);
        }
    }
    String::from_str(message)
}

/// The translation of the skipped-verification conclusion; any other
/// conclusion passes through.
pub open spec fn spec_localize_conclusion(locale: Locale, msg: Seq<char>) -> Seq<char> {
    if msg == "No data written; verification skipped."@ {
        spec_pick(
            locale,
            "No data written; verification skipped."@,
            "No se escribieron datos; se omitió la verificación."@,
            "Aucune donnée écrite ; vérification ignorée."@,
            "Keine Daten geschrieben; Verifizierung übersprungen."@,
            "Данные не были записаны; проверка пропущена."@,
            "데이터가 기록되지 않아 검증을 건너뛰었습니다."@,
            "未写入数据；已跳过校验。"@,
            "未寫入資料；已跳過驗證。"@,
            "データが書き込まれていないため、検証をスキップしました。"@,
        )
    } else {
        msg
    }
}

/// Translates the conclusion of a report that skipped verification.
pub fn localize_conclusion(locale: Locale, message: &str) -> (r: String)
    ensures
        r@ == spec_localize_conclusion(locale, message@),
{
    if str_eq(message, "No data written; verification skipped.") {
        String::from_str(
            pick(
                locale,
                "No data written; verification skipped.",
                "No se escribieron datos; se omitió la verificación.",
                "Aucune donnée écrite ; vérification ignorée.",
                "Keine Daten geschrieben; Verifizierung übersprungen.",
                "Данные не были записаны; проверка пропущена.",
                "데이터가 기록되지 않아 검증을 건너뛰었습니다.",
                "未写入数据；已跳过校验。",
                "未寫入資料；已跳過驗證。",
                "データが書き込まれていないため、検証をスキップしました。",
            ),
        )
    } else {
        String::from_str(message)
    }
}

/// The localized status-keyed base sentence of a report conclusion.
pub open spec fn t_conclusion_base(locale: Locale, status: DriveHealthStatus) -> Seq<char> {
    match status {
        DriveHealthStatus::Healthy => spec_pick(
            locale,
            "No inconsistencies detected."@,
            "No se detectaron inconsistencias."@,
            "Aucune incohérence détectée."@,
            "Keine Inkonsistenzen festgestellt."@,
            "Несоответствий не обнаружено."@,
            "불일치가 감지되지 않았습니다."@,
            "未发现不一致。"@,
            "未發現不一致。"@,
            "不整合は検出されませんでした。"@,
        ),
        DriveHealthStatus::FakeCapacity => spec_pick(
            locale,
            "Warning: detected zero-filled data; possible fake capacity."@,
            "Advertencia: se detectaron datos llenos de ceros; posible capacidad falsa."@,
            "Avertissement : des données remplies de zéros ont été détectées ; capacité potentiellement factice."@,
            "Warnung: mit Nullen gefüllte Daten erkannt; mögliche Falschkapazität."@,
            "Предупреждение: обнаружены заполненные нулями данные; возможна ложная емкость."@,
            "경고: 0으로 채워진 데이터가 감지되었습니다. 가짜 용량일 수 있습니다."@,
            "警告：检测到全零数据，可能为虚假容量。"@,
            "警告：檢測到全零資料，可能為虛假容量。"@,
            "警告：ゼロ埋めデータを検出しました。偽装容量の可能性があります。"@,
        ),
        DriveHealthStatus::PhysicalCorruption => spec_pick(
            locale,
            "Warning: detected random corruption or inconsistent data."@,
            "Advertencia: se detectó corrupción aleatoria o datos inconsistentes."@,
            "Avertissement : corruption aléatoire ou données incohérentes détectées."@,
            "Warnung: zufällige Beschädigung oder inkonsistente Daten erkannt."@,
            "Предупреждение: обнаружена случайная порча или несогласованные данные."@,
            "경고: 무작위 손상 또는 불일치 데이터가 감지되었습니다."@,
            "警告：检测到随机损坏或不一致数据。"@,
            "警告：檢測到隨機損壞或不一致資料。"@,
            "警告：ランダムな破損または不整合データを検出しました。"@,
        ),
        DriveHealthStatus::DataLoss => spec_pick(
            locale,
            "Warning: read errors or missing data detected."@,
            "Advertencia: se detectaron errores de lectura o datos faltantes."@,
            "Avertissement : erreurs de lecture ou données manquantes détectées."@,
            "Warnung: Lesefehler oder fehlende Daten erkannt."@,
            "Предупреждение: обнаружены ошибки чтения или отсутствующие данные."@,
            "경고: 읽기 오류 또는 누락된 데이터가 감지되었습니다."@,
            "警告：检测到读取错误或数据缺失。"@,
            "警告：檢測到讀取錯誤或資料缺失。"@,
            "警告：読み取りエラーまたはデータ欠落を検出しました。"@,
        ),
    }
}

fn conclusion_base_text(locale: Locale, status: DriveHealthStatus) -> (r: &'static str)
    ensures
        r@ == t_conclusion_base(locale, status),
{
    match status {
        DriveHealthStatus::Healthy => pick(
            locale,
            "No inconsistencies detected.",
            "No se detectaron inconsistencias.",
            "Aucune incohérence détectée.",
            "Keine Inkonsistenzen festgestellt.",
            "Несоответствий не обнаружено.",
            "불일치가 감지되지 않았습니다.",
            "未发现不一致。",
            "未發現不一致。",
            "不整合は検出されませんでした。",
        ),
        DriveHealthStatus::FakeCapacity => pick(
            locale,
            "Warning: detected zero-filled data; possible fake capacity.",
            "Advertencia: se detectaron datos llenos de ceros; posible capacidad falsa.",
            "Avertissement : des données remplies de zéros ont été détectées ; capacité potentiellement factice.",
            "Warnung: mit Nullen gefüllte Daten erkannt; mögliche Falschkapazität.",
            "Предупреждение: обнаружены заполненные нулями данные; возможна ложная емкость.",
            "경고: 0으로 채워진 데이터가 감지되었습니다. 가짜 용량일 수 있습니다.",
            "警告：检测到全零数据，可能为虚假容量。",
            "警告：檢測到全零資料，可能為虛假容量。",
            "警告：ゼロ埋めデータを検出しました。偽装容量の可能性があります。",
        ),
        DriveHealthStatus::PhysicalCorruption => pick(
            locale,
            "Warning: detected random corruption or inconsistent data.",
            "Advertencia: se detectó corrupción aleatoria o datos inconsistentes.",
            "Avertissement : corruption aléatoire ou données incohérentes détectées.",
            "Warnung: zufällige Beschädigung oder inkonsistente Daten erkannt.",
            "Предупреждение: обнаружена случайная порча или несогласованные данные.",
            "경고: 무작위 손상 또는 불일치 데이터가 감지되었습니다.",
            "警告：检测到随机损坏或不一致数据。",
            "警告：檢測到隨機損壞或不一致資料。",
            "警告：ランダムな破損または不整合データを検出しました。",
        ),
        DriveHealthStatus::DataLoss => pick(
            locale,
            "Warning: read errors or missing data detected.",
            "Advertencia: se detectaron errores de lectura o datos faltantes.",
            "Avertissement : erreurs de lecture ou données manquantes détectées.",
            "Warnung: Lesefehler oder fehlende Daten erkannt.",
            "Предупреждение: обнаружены ошибки чтения или отсутствующие данные.",
            "경고: 읽기 오류 또는 누락된 데이터가 감지되었습니다.",
            "警告：检测到读取错误或数据缺失。",
            "警告：檢測到讀取錯誤或資料缺失。",
            "警告：読み取りエラーまたはデータ欠落を検出しました。",
        ),
    }
}

/// The localized full conclusion: the base sentence, the error count, and
/// the early-termination note with both byte counts whenever fewer bytes
/// were tested than the capacity.
pub open spec fn spec_localized_report_conclusion(
    locale: Locale,
    status: DriveHealthStatus,
    error_count: u64,
    tested_bytes: u64,
    total_capacity: u64,
) -> Seq<char> {
    let base = t_conclusion_base(locale, status);
    let counted = base + spec_pick(
        locale,
        " Errors: "@,
        " Errores: "@,
        " Erreurs : "@,
        " Fehler: "@,
        " Ошибки: "@,
        " 오류 수: "@,
        " 错误数："@,
        " 錯誤數："@,
        " エラー数："@,
    ) + decimal_of(error_count as nat) + spec_pick(
        locale,
        "."@,
        "."@,
        "."@,
        "."@,
        "."@,
        "."@,
        "。"@,
        "。"@,
        "。"@,
    );
    if tested_bytes < total_capacity {
        counted + spec_pick(
            locale,
            " Verification ended early after "@,
            " La verificación terminó antes de tiempo después de "@,
            " La vérification s'est terminée prématurément après "@,
            " Die Verifizierung wurde vorzeitig beendet nach "@,
            " Проверка завершилась досрочно после "@,
            " 검증이 조기에 종료되었습니다: "@,
            " 校验提前结束，已完成 "@,
            " 驗證提前結束，已完成 "@,
            " 検証は早期終了しました（"@,
        ) + decimal_of(tested_bytes as nat) + " / "@ + decimal_of(total_capacity as nat)
            + spec_pick(
            locale,
            " bytes."@,
            " bytes."@,
            " octets."@,
            " Bytes."@,
            " байт."@,
            " 바이트."@,
            " 字节。"@,
            " 位元組。"@,
            " バイト）。"@,
        )
    } else {
        counted
    }
}

/// Renders a report's conclusion in the given locale, per
/// [`spec_localized_report_conclusion`].
pub fn localize_report_conclusion(locale: Locale, report: &DiagnosisReport) -> (r: String)
    ensures
        r@ == spec_localized_report_conclusion(
            locale,
            report.status,
            report.error_count,
            report.tested_bytes,
            report.total_capacity,
        ),
{
    let mut s = String::from_str(conclusion_base_text(locale, report.status));
    s.append(
        pick(
            locale,
            " Errors: ",
            " Errores: ",
            " Erreurs : ",
            " Fehler: ",
            " Ошибки: ",
            " 오류 수: ",
            " 错误数：",
            " 錯誤數：",
            " エラー数：",
        ),
    );
    s.append(u64_to_decimal(report.error_count).as_str());
    s.append(pick(locale, ".", ".", ".", ".", ".", ".", "。", "。", "。"));
    if report.tested_bytes < report.total_capacity {
        s.append(
            pick(
                locale,
                " Verification ended early after ",
                " La verificación terminó antes de tiempo después de ",
                " La vérification s'est terminée prématurément après ",
                " Die Verifizierung wurde vorzeitig beendet nach ",
                " Проверка завершилась досрочно после ",
                " 검증이 조기에 종료되었습니다: ",
                " 校验提前结束，已完成 ",
                " 驗證提前結束，已完成 ",
                " 検証は早期終了しました（",
            ),
        );
        s.append(u64_to_decimal(report.tested_bytes).as_str());
        s.append(" / ");
        s.append(u64_to_decimal(report.total_capacity).as_str());
        s.append(
            pick(
                locale,
                " bytes.",
                " bytes.",
                " octets.",
                " Bytes.",
                " байт.",
                " 바이트.",
                " 字节。",
                " 位元組。",
                " バイト）。",
            ),
        );
    }
    proof {
        assert(s@ =~= spec_localized_report_conclusion(
            locale,
            report.status,
            report.error_count,
            report.tested_bytes,
            report.total_capacity,
        ));
    }
    s
}

} // verus!
