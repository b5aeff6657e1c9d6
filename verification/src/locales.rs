//! Fluent message sources of the bot, one per supported language.

use vstd::prelude::*;

verus! {

pub const EN_FTL: &'static str = "welcome-greeting = Welcome to BOLDTRACE market intelligence.
welcome-choose-language = Please choose your language.
language-prompt = Choose your language:
language-changed = Language set to { $language }.
language-name-en = English
language-name-tr = Türkçe
language-name-fr = Français
language-name-de = Deutsch
language-name-ar = العربية
language-name-ru = Русский
consent-title = Terms of use
consent-body = BOLDTRACE provides market data analysis for information only. By continuing you accept the terms of use.
consent-accept-button = I accept
help-title = Available commands:
help-tara = /tara <SYMBOL> - latest decision for a symbol
help-alarm = /alarm <SYMBOL> <THRESHOLD> - alert when the score crosses a threshold
help-language = /language - change the language
help-help = /help - show this help
tara-no-data = No data yet for { $symbol }.
alarm-invalid-threshold = The threshold must be a number between 0 and 100.
alarm-usage = Usage: /alarm <SYMBOL> <THRESHOLD>
alarm-set = Alarm set for { $symbol } at { $threshold }.
alarm-triggered = { $symbol } score { $score } crossed your alarm at { $threshold }.
footer-company = BOLDTRACE
footer-rights = All rights reserved.
footer-disclaimer = This is not investment advice.
";

pub const TR_FTL: &'static str = "welcome-greeting = BOLDTRACE piyasa zekasına hoş geldiniz.
welcome-choose-language = Lütfen dilinizi seçin.
language-prompt = Dilinizi seçin:
language-changed = Dil { $language } olarak ayarlandı.
language-name-en = English
language-name-tr = Türkçe
language-name-fr = Français
language-name-de = Deutsch
language-name-ar = العربية
language-name-ru = Русский
consent-title = Kullanım koşulları
consent-body = BOLDTRACE yalnızca bilgi amaçlı piyasa verisi analizi sunar. Devam ederek kullanım koşullarını kabul edersiniz.
consent-accept-button = Kabul ediyorum
help-title = Kullanılabilir komutlar:
help-tara = /tara <SEMBOL> - bir sembol için son karar
help-alarm = /alarm <SEMBOL> <EŞİK> - skor eşiği geçtiğinde uyarı
help-language = /language - dili değiştir
help-help = /help - bu yardımı göster
tara-no-data = { $symbol } için henüz veri yok.
alarm-invalid-threshold = Eşik 0 ile 100 arasında bir sayı olmalıdır.
alarm-usage = Kullanım: /alarm <SEMBOL> <EŞİK>
alarm-set = { $symbol } için { $threshold } alarmı kuruldu.
alarm-triggered = { $symbol } skoru { $score }, { $threshold } alarmınızı geçti.
footer-company = BOLDTRACE
footer-rights = Tüm hakları saklıdır.
footer-disclaimer = Bu bir yatırım tavsiyesi değildir.
";

pub const FR_FTL: &'static str = "welcome-greeting = Bienvenue sur BOLDTRACE, l'intelligence de marché.
welcome-choose-language = Veuillez choisir votre langue.
language-prompt = Choisissez votre langue :
language-changed = Langue définie sur { $language }.
language-name-en = English
language-name-tr = Türkçe
language-name-fr = Français
language-name-de = Deutsch
language-name-ar = العربية
language-name-ru = Русский
consent-title = Conditions d'utilisation
consent-body = BOLDTRACE fournit une analyse des données de marché à titre informatif uniquement. En continuant, vous acceptez les conditions d'utilisation.
consent-accept-button = J'accepte
help-title = Commandes disponibles :
help-tara = /tara <SYMBOLE> - dernière décision pour un symbole
help-alarm = /alarm <SYMBOLE> <SEUIL> - alerte lorsque le score franchit un seuil
help-language = /language - changer de langue
help-help = /help - afficher cette aide
tara-no-data = Pas encore de données pour { $symbol }.
alarm-invalid-threshold = Le seuil doit être un nombre entre 0 et 100.
alarm-usage = Utilisation : /alarm <SYMBOLE> <SEUIL>
alarm-set = Alarme définie pour { $symbol } à { $threshold }.
alarm-triggered = Le score de { $symbol } ({ $score }) a franchi votre alarme à { $threshold }.
footer-company = BOLDTRACE
footer-rights = Tous droits réservés.
footer-disclaimer = Ceci n'est pas un conseil en investissement.
";

pub const DE_FTL: &'static str = "welcome-greeting = Willkommen bei BOLDTRACE Marktintelligenz.
welcome-choose-language = Bitte wählen Sie Ihre Sprache.
language-prompt = Wählen Sie Ihre Sprache:
language-changed = Sprache auf { $language } gesetzt.
language-name-en = English
language-name-tr = Türkçe
language-name-fr = Français
language-name-de = Deutsch
language-name-ar = العربية
language-name-ru = Русский
consent-title = Nutzungsbedingungen
consent-body = BOLDTRACE bietet Marktdatenanalysen nur zu Informationszwecken. Mit dem Fortfahren akzeptieren Sie die Nutzungsbedingungen.
consent-accept-button = Ich akzeptiere
help-title = Verfügbare Befehle:
help-tara = /tara <SYMBOL> - letzte Entscheidung für ein Symbol
help-alarm = /alarm <SYMBOL> <SCHWELLE> - Alarm, wenn der Score eine Schwelle überschreitet
help-language = /language - Sprache ändern
help-help = /help - diese Hilfe anzeigen
tara-no-data = Noch keine Daten für { $symbol }.
alarm-invalid-threshold = Die Schwelle muss eine Zahl zwischen 0 und 100 sein.
alarm-usage = Verwendung: /alarm <SYMBOL> <SCHWELLE>
alarm-set = Alarm für { $symbol } bei { $threshold } gesetzt.
alarm-triggered = Der Score von { $symbol } ({ $score }) hat Ihren Alarm bei { $threshold } überschritten.
footer-company = BOLDTRACE
footer-rights = Alle Rechte vorbehalten.
footer-disclaimer = Dies ist keine Anlageberatung.
";

pub const AR_FTL: &'static str = "welcome-greeting = مرحبًا بك في BOLDTRACE لذكاء السوق.
welcome-choose-language = يرجى اختيار لغتك.
language-prompt = اختر لغتك:
language-changed = تم ضبط اللغة على { $language }.
language-name-en = English
language-name-tr = Türkçe
language-name-fr = Français
language-name-de = Deutsch
language-name-ar = العربية
language-name-ru = Русский
consent-title = شروط الاستخدام
consent-body = يقدم BOLDTRACE تحليلًا لبيانات السوق لأغراض إعلامية فقط. بالمتابعة فإنك توافق على شروط الاستخدام.
consent-accept-button = أوافق
help-title = الأوامر المتاحة:
help-tara = /tara <الرمز> - آخر قرار لرمز
help-alarm = /alarm <الرمز> <الحد> - تنبيه عندما تتجاوز النتيجة حدًا
help-language = /language - تغيير اللغة
help-help = /help - عرض هذه المساعدة
tara-no-data = لا توجد بيانات بعد لـ { $symbol }.
alarm-invalid-threshold = يجب أن يكون الحد رقمًا بين 0 و100.
alarm-usage = الاستخدام: /alarm <الرمز> <الحد>
alarm-set = تم ضبط تنبيه لـ { $symbol } عند { $threshold }.
alarm-triggered = تجاوزت نتيجة { $symbol } ({ $score }) تنبيهك عند { $threshold }.
footer-company = BOLDTRACE
footer-rights = جميع الحقوق محفوظة.
footer-disclaimer = هذه ليست نصيحة استثمارية.
";

pub const RU_FTL: &'static str = "welcome-greeting = Добро пожаловать в рыночную аналитику BOLDTRACE.
welcome-choose-language = Пожалуйста, выберите язык.
language-prompt = Выберите язык:
language-changed = Язык изменён на { $language }.
language-name-en = English
language-name-tr = Türkçe
language-name-fr = Français
language-name-de = Deutsch
language-name-ar = العربية
language-name-ru = Русский
consent-title = Условия использования
consent-body = BOLDTRACE предоставляет анализ рыночных данных только в информационных целях. Продолжая, вы принимаете условия использования.
consent-accept-button = Принимаю
help-title = Доступные команды:
help-tara = /tara <СИМВОЛ> - последнее решение по символу
help-alarm = /alarm <СИМВОЛ> <ПОРОГ> - оповещение, когда оценка пересекает порог
help-language = /language - сменить язык
help-help = /help - показать эту справку
tara-no-data = Для { $symbol } пока нет данных.
alarm-invalid-threshold = Порог должен быть числом от 0 до 100.
alarm-usage = Использование: /alarm <СИМВОЛ> <ПОРОГ>
alarm-set = Оповещение для { $symbol } установлено на { $threshold }.
alarm-triggered = Оценка { $symbol } ({ $score }) пересекла ваш порог { $threshold }.
footer-company = BOLDTRACE
footer-rights = Все права защищены.
footer-disclaimer = Это не инвестиционная рекомендация.
";

} // verus!
