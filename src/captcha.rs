//! Detection of CAPTCHA challenges on the page, and what to do about them.

use vstd::prelude::*;
use crate::text::{text_eq, join2};

verus! {

/// The kind of challenge.
#[derive(Debug, Clone, Copy, PartialEq, Eq, Structural)]
pub enum CaptchaType {
    RecaptchaV2,
    RecaptchaV3,
    Hcaptcha,
    CloudflareTurnstile,
    CloudflareChallenge,
    FunCaptcha,
    ImageCaptcha,
    AudioCaptcha,
    TextCaptcha,
    SliderCaptcha,
    Unknown,
}

/// What the automation should do about a challenge.
#[derive(Debug, Clone, Copy, PartialEq, Eq, Structural)]
pub enum CaptchaRecommendation {
    Continue,
    PauseForHuman,
    WaitForAutoSolve,
    Retry,
}

/// What was found on the page.
#[derive(Debug, Clone)]
pub struct CaptchaDetection {
    pub detected: bool,
    pub captcha_type: Option<CaptchaType>,
    pub selector: Option<String>,
    pub description: Option<String>,
    pub appears_solved: bool,
    pub recommendation: CaptchaRecommendation,
}

impl Default for CaptchaDetection {
    fn default() -> (r: CaptchaDetection)
        ensures
            !r.detected,
            r.captcha_type is None,
            r.selector is None,
            r.description is None,
            !r.appears_solved,
            r.recommendation == CaptchaRecommendation::Continue,
    {
        CaptchaDetection {
            detected: false,
            captcha_type: None,
            selector: None,
            description: None,
            appears_solved: false,
            recommendation: CaptchaRecommendation::Continue,
        }
    }
}

/// The script that looks for known challenges on the page. It returns an
/// object with `detected`, `captcha_type`, `selector`, `description` and
/// `appears_solved`.
pub fn captcha_detection_script() -> &'static str {
    r#"
    (function() {
        const result = {
            detected: false,
            captcha_type: null,
            selector: null,
            description: null,
            appears_solved: false
        };

        // Check for reCAPTCHA v2
        const recaptchaV2 = document.querySelector('.g-recaptcha, [data-sitekey], iframe[src*="recaptcha"]');
        if (recaptchaV2) {
            result.detected = true;
            result.captcha_type = 'recaptcha_v2';
            result.selector = '.g-recaptcha';
            result.description = 'Google reCAPTCHA v2 detected';
            // Check if checkbox is checked
            const checkbox = document.querySelector('.recaptcha-checkbox-checked, .recaptcha-checkbox-checkmark[style*="opacity: 1"]');
            result.appears_solved = !!checkbox;
            return result;
        }

        // Check for reCAPTCHA v3 (invisible)
        const recaptchaV3 = document.querySelector('.grecaptcha-badge, script[src*="recaptcha/api.js?render="]');
        if (recaptchaV3) {
            result.detected = true;
            result.captcha_type = 'recaptcha_v3';
            result.selector = '.grecaptcha-badge';
            result.description = 'Google reCAPTCHA v3 (invisible) detected';
            result.appears_solved = true; // v3 is automatic
            return result;
        }

        // Check for hCaptcha
        const hcaptcha = document.querySelector('.h-captcha, iframe[src*="hcaptcha.com"], [data-hcaptcha-widget-id]');
        if (hcaptcha) {
            result.detected = true;
            result.captcha_type = 'hcaptcha';
            result.selector = '.h-captcha';
            result.description = 'hCaptcha detected';
            // Check for success indicator
            const solved = document.querySelector('[data-hcaptcha-response]:not([data-hcaptcha-response=""])');
            result.appears_solved = !!solved;
            return result;
        }

        // Check for Cloudflare Turnstile
        const turnstile = document.querySelector('.cf-turnstile, iframe[src*="challenges.cloudflare.com/turnstile"]');
        if (turnstile) {
            result.detected = true;
            result.captcha_type = 'cloudflare_turnstile';
            result.selector = '.cf-turnstile';
            result.description = 'Cloudflare Turnstile detected';
            const solved = document.querySelector('[name="cf-turnstile-response"]:not([value=""])');
            result.appears_solved = !!solved;
            return result;
        }

        // Check for Cloudflare challenge page
        const cfChallenge = document.querySelector('#cf-challenge-running, .cf-browser-verification, #challenge-form, #challenge-error-text');
        if (cfChallenge || document.title.includes('Just a moment') || document.body.innerHTML.includes('Checking if the site connection is secure')) {
            result.detected = true;
            result.captcha_type = 'cloudflare_challenge';
            result.selector = '#challenge-form';
            result.description = 'Cloudflare challenge page detected';
            result.appears_solved = false;
            return result;
        }

        // Check for FunCaptcha (Arkose Labs)
        const funcaptcha = document.querySelector('#FunCaptcha, iframe[src*="arkoselabs.com"], [data-callback*="funcaptcha"]');
        if (funcaptcha) {
            result.detected = true;
            result.captcha_type = 'fun_captcha';
            result.selector = '#FunCaptcha';
            result.description = 'Arkose Labs FunCaptcha detected';
            result.appears_solved = false;
            return result;
        }

        // Check for slider CAPTCHA patterns
        const slider = document.querySelector('.slider-captcha, .slide-verify, .geetest_slider, [class*="captcha-slider"]');
        if (slider) {
            result.detected = true;
            result.captcha_type = 'slider_captcha';
            result.selector = slider.className.split(' ')[0];
            result.description = 'Slider/puzzle CAPTCHA detected';
            result.appears_solved = false;
            return result;
        }

        // Check for image CAPTCHA
        const imageCaptcha = document.querySelector('img[src*="captcha"], img[alt*="captcha" i], input[name*="captcha" i]');
        if (imageCaptcha) {
            result.detected = true;
            result.captcha_type = 'image_captcha';
            result.selector = imageCaptcha.tagName.toLowerCase();
            result.description = 'Image-based CAPTCHA detected';
            result.appears_solved = false;
            return result;
        }

        // Check for generic CAPTCHA indicators
        const genericCaptcha = document.querySelector('[class*="captcha" i], [id*="captcha" i], [aria-label*="captcha" i]');
        if (genericCaptcha && !result.detected) {
            result.detected = true;
            result.captcha_type = 'unknown';
            result.selector = genericCaptcha.id || genericCaptcha.className.split(' ')[0];
            result.description = 'Unknown CAPTCHA type detected';
            result.appears_solved = false;
            return result;
        }

        return result;
    })()
    "#
}

/// The kind that a name reported by the script stands for.
pub open spec fn captcha_type_spec(name: Seq<char>) -> CaptchaType {
    if name == "recaptcha_v2"@ {
        CaptchaType::RecaptchaV2
    } else if name == "recaptcha_v3"@ {
        CaptchaType::RecaptchaV3
    } else if name == "hcaptcha"@ {
        CaptchaType::Hcaptcha
    } else if name == "cloudflare_turnstile"@ {
        CaptchaType::CloudflareTurnstile
    } else if name == "cloudflare_challenge"@ {
        CaptchaType::CloudflareChallenge
    } else if name == "fun_captcha"@ {
        CaptchaType::FunCaptcha
    } else if name == "image_captcha"@ {
        CaptchaType::ImageCaptcha
    } else if name == "audio_captcha"@ {
        CaptchaType::AudioCaptcha
    } else if name == "text_captcha"@ {
        CaptchaType::TextCaptcha
    } else if name == "slider_captcha"@ {
        CaptchaType::SliderCaptcha
    } else {
        CaptchaType::Unknown
    }
}

/// The kind that a name reported by the script stands for.
pub fn captcha_type_from_name(name: &str) -> (r: CaptchaType)
    ensures
        r == captcha_type_spec(name@),
{
    if text_eq(name, "recaptcha_v2") {
        CaptchaType::RecaptchaV2
    } else if text_eq(name, "recaptcha_v3") {
        CaptchaType::RecaptchaV3
    } else if text_eq(name, "hcaptcha") {
        CaptchaType::Hcaptcha
    } else if text_eq(name, "cloudflare_turnstile") {
        CaptchaType::CloudflareTurnstile
    } else if text_eq(name, "cloudflare_challenge") {
        CaptchaType::CloudflareChallenge
    } else if text_eq(name, "fun_captcha") {
        CaptchaType::FunCaptcha
    } else if text_eq(name, "image_captcha") {
        CaptchaType::ImageCaptcha
    } else if text_eq(name, "audio_captcha") {
        CaptchaType::AudioCaptcha
    } else if text_eq(name, "text_captcha") {
        CaptchaType::TextCaptcha
    } else if text_eq(name, "slider_captcha") {
        CaptchaType::SliderCaptcha
    } else {
        CaptchaType::Unknown
    }
}

/// The advice for a challenge: nothing to do once solved; otherwise wait for
/// an invisible check, retry a challenge page, and hand any other kind to a
/// person.
pub open spec fn recommendation_spec(
    appears_solved: bool,
    captcha_type: Option<CaptchaType>,
) -> CaptchaRecommendation {
    if appears_solved {
        CaptchaRecommendation::Continue
    } else {
        match captcha_type {
            Some(CaptchaType::RecaptchaV3) => CaptchaRecommendation::WaitForAutoSolve,
            Some(CaptchaType::CloudflareChallenge) => CaptchaRecommendation::Retry,
            Some(_) => CaptchaRecommendation::PauseForHuman,
            None => CaptchaRecommendation::Continue,
        }
    }
}

/// The advice for a challenge.
pub fn recommend(appears_solved: bool, captcha_type: Option<CaptchaType>) -> (r:
    CaptchaRecommendation)
    ensures
        r == recommendation_spec(appears_solved, captcha_type),
{
    if appears_solved {
        CaptchaRecommendation::Continue
    } else {
        match captcha_type {
            Some(CaptchaType::RecaptchaV3) => CaptchaRecommendation::WaitForAutoSolve,
            Some(CaptchaType::CloudflareChallenge) => CaptchaRecommendation::Retry,
            Some(_) => CaptchaRecommendation::PauseForHuman,
            None => CaptchaRecommendation::Continue,
        }
    }
}

/// The kind named by an optional name.
pub open spec fn named_type(kind_name: Option<&str>) -> Option<CaptchaType> {
    match kind_name {
        Some(n) => Some(captcha_type_spec(n@)),
        None => None,
    }
}

/// Reads the fields that the detection script reported. Nothing detected
/// gives the empty detection; otherwise the kind is read from its name and
/// the advice follows from the kind and whether it looks solved.
pub fn parse_captcha_report(
    detected: bool,
    kind_name: Option<&str>,
    selector: Option<String>,
    description: Option<String>,
    appears_solved: bool,
) -> (r: CaptchaDetection)
    ensures
        r.detected == detected,
        !detected ==> r.captcha_type is None && r.selector is None && r.description is None
            && !r.appears_solved && r.recommendation == CaptchaRecommendation::Continue,
        detected ==> r.captcha_type == named_type(kind_name) && r.selector == selector
            && r.description == description && r.appears_solved == appears_solved
            && r.recommendation == recommendation_spec(appears_solved, r.captcha_type),
{
    if !detected {
        return CaptchaDetection::default();
    }
    let captcha_type = match kind_name {
        Some(n) => Some(captcha_type_from_name(n)),
        None => None,
    };
    let recommendation = recommend(appears_solved, captcha_type);
    CaptchaDetection {
        detected,
        captcha_type,
        selector,
        description,
        appears_solved,
        recommendation,
    }
}

/// The variant's name.
pub open spec fn captcha_kind_name(t: CaptchaType) -> Seq<char> {
    match t {
        CaptchaType::RecaptchaV2 => "RecaptchaV2"@,
        CaptchaType::RecaptchaV3 => "RecaptchaV3"@,
        CaptchaType::Hcaptcha => "Hcaptcha"@,
        CaptchaType::CloudflareTurnstile => "CloudflareTurnstile"@,
        CaptchaType::CloudflareChallenge => "CloudflareChallenge"@,
        CaptchaType::FunCaptcha => "FunCaptcha"@,
        CaptchaType::ImageCaptcha => "ImageCaptcha"@,
        CaptchaType::AudioCaptcha => "AudioCaptcha"@,
        CaptchaType::TextCaptcha => "TextCaptcha"@,
        CaptchaType::SliderCaptcha => "SliderCaptcha"@,
        CaptchaType::Unknown => "Unknown"@,
    }
}

impl CaptchaType {
    /// The variant's name.
    pub fn name(&self) -> (r: &'static str)
        ensures
            r@ == captcha_kind_name(*self),
    {
        match self {
            CaptchaType::RecaptchaV2 => "RecaptchaV2",
            CaptchaType::RecaptchaV3 => "RecaptchaV3",
            CaptchaType::Hcaptcha => "Hcaptcha",
            CaptchaType::CloudflareTurnstile => "CloudflareTurnstile",
            CaptchaType::CloudflareChallenge => "CloudflareChallenge",
            CaptchaType::FunCaptcha => "FunCaptcha",
            CaptchaType::ImageCaptcha => "ImageCaptcha",
            CaptchaType::AudioCaptcha => "AudioCaptcha",
            CaptchaType::TextCaptcha => "TextCaptcha",
            CaptchaType::SliderCaptcha => "SliderCaptcha",
            CaptchaType::Unknown => "Unknown",
        }
    }
}

/// The line that tells what to do.
pub open spec fn action_text(r: CaptchaRecommendation) -> Seq<char> {
    match r {
        CaptchaRecommendation::Continue => "Continue with automation"@,
        CaptchaRecommendation::PauseForHuman => "PAUSE - Human intervention required"@,
        CaptchaRecommendation::WaitForAutoSolve => "Wait for automatic solution"@,
        CaptchaRecommendation::Retry => "Retry after short delay"@,
    }
}

/// The first line of a report.
pub open spec fn headline(description: Option<String>) -> Seq<char> {
    "\u{26a0}\u{fe0f}  "@ + match description {
        Some(desc) => desc@,
        None => "CAPTCHA detected"@,
    } + "\n"@
}

/// The line naming the kind, when it is known.
pub open spec fn kind_line(t: Option<CaptchaType>) -> Seq<char> {
    match t {
        Some(t) => "   Type: "@ + captcha_kind_name(t) + "\n"@,
        None => Seq::empty(),
    }
}

/// The line naming the element, when it is known.
pub open spec fn element_line(selector: Option<String>) -> Seq<char> {
    match selector {
        Some(s) => "   Element: "@ + s@ + "\n"@,
        None => Seq::empty(),
    }
}

/// The lines on whether it looks solved and on what to do.
pub open spec fn closing_lines(solved: bool, r: CaptchaRecommendation) -> Seq<char> {
    "   Solved: "@ + (if solved {
        "Yes"@
    } else {
        "No"@
    }) + "\n"@ + "   Action: "@ + action_text(r) + "\n"@
}

/// The report of a detection, one item per line.
pub open spec fn captcha_report_text(d: CaptchaDetection) -> Seq<char> {
    if !d.detected {
        "No CAPTCHA detected"@
    } else {
        headline(d.description) + kind_line(d.captcha_type) + element_line(d.selector)
            + closing_lines(d.appears_solved, d.recommendation)
    }
}

fn format_headline(description: &Option<String>) -> (r: String)
    ensures
        r@ == headline(*description),
{
    let mut out = "\u{26a0}\u{fe0f}  ".to_owned();
    match description {
        Some(desc) => out.append(desc.as_str()),
        None => out.append("CAPTCHA detected"),
    }
    out.append("\n");
    out
}

fn format_kind_line(t: &Option<CaptchaType>) -> (r: String)
    ensures
        r@ == kind_line(*t),
{
    match t {
        Some(t) => {
            let mut out = join2("   Type: ", t.name());
            out.append("\n");
            out
        },
        None => String::new(),
    }
}

fn format_element_line(selector: &Option<String>) -> (r: String)
    ensures
        r@ == element_line(*selector),
{
    match selector {
        Some(s) => {
            let mut out = join2("   Element: ", s.as_str());
            out.append("\n");
            out
        },
        None => String::new(),
    }
}

fn format_closing_lines(solved: bool, rec: CaptchaRecommendation) -> (r: String)
    ensures
        r@ == closing_lines(solved, rec),
{
    let mut out = join2(
        "   Solved: ",
        if solved {
            "Yes"
        } else {
            "No"
        },
    );
    out.append("\n");
    out.append("   Action: ");
    let action = match rec {
        CaptchaRecommendation::Continue => "Continue with automation",
        CaptchaRecommendation::PauseForHuman => "PAUSE - Human intervention required",
        CaptchaRecommendation::WaitForAutoSolve => "Wait for automatic solution",
        CaptchaRecommendation::Retry => "Retry after short delay",
    };
    out.append(action);
    out.append("\n");
    out
}

/// Renders a detection for people.
pub fn format_captcha_detection(detection: &CaptchaDetection) -> (r: String)
    ensures
        r@ == captcha_report_text(*detection),
{
    if !detection.detected {
        return "No CAPTCHA detected".to_owned();
    }
    let mut out = format_headline(&detection.description);
    out.append(format_kind_line(&detection.captcha_type).as_str());
    out.append(format_element_line(&detection.selector).as_str());
    out.append(format_closing_lines(detection.appears_solved, detection.recommendation).as_str());
    out
}

} // verus!
