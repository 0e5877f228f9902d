//! The languages that the interface and posts can be in.

use crate::text;
use vstd::prelude::*;

verus! {

/// The codes of the languages.
pub const SUPPORTED_LANGUAGES: [&'static str; 7] = ["ja", "en", "zh", "ko", "es", "de", "fr"];

/// The code is one of a supported language.
pub open spec fn supported(language: Seq<char>) -> bool {
    ||| language == "ja"@
    ||| language == "en"@
    ||| language == "zh"@
    ||| language == "ko"@
    ||| language == "es"@
    ||| language == "de"@
    ||| language == "fr"@
}

/// Whether the code is one of a supported language.
pub fn is_supported_language(language: &str) -> (r: bool)
    ensures
        r == supported(language@),
{
    let all: [&'static str; 7] = SUPPORTED_LANGUAGES;
    let mut i: usize = 0;
    while i < 7
        invariant
            i <= 7,
            all@ == seq!["ja", "en", "zh", "ko", "es", "de", "fr"],
            forall|j: int| 0 <= j < i ==> all@[j]@ != language@,
        decreases 7 - i,
    {
        if text::same_str(all[i], language) {
            return true;
        }
        i += 1;
    }
    assert(all@[0]@ == "ja"@ && all@[1]@ == "en"@ && all@[2]@ == "zh"@ && all@[3]@ == "ko"@);
    assert(all@[4]@ == "es"@ && all@[5]@ == "de"@ && all@[6]@ == "fr"@);
    false
}

// ---------------------------------------------------------------------------
// Laws.
// ---------------------------------------------------------------------------

/// A language is supported where its code is in the list, and only then.
pub proof fn law_listed_languages_are_supported(language: Seq<char>)
    ensures
        supported(language) <==> exists|k: int|
            0 <= k < 7 && (#[trigger] SUPPORTED_LANGUAGES@[k])@ == language,
        supported(language) ==> language.len() == 2,
{
    reveal_strlit("ja");
    reveal_strlit("en");
    reveal_strlit("zh");
    reveal_strlit("ko");
    reveal_strlit("es");
    reveal_strlit("de");
    reveal_strlit("fr");
    assert("ja"@.len() == 2);
    assert("en"@.len() == 2);
    assert("zh"@.len() == 2);
    assert("ko"@.len() == 2);
    assert("es"@.len() == 2);
    assert("de"@.len() == 2);
    assert("fr"@.len() == 2);
    assert("ja"@[0] != "en"@[0]);
    assert("ja"@[0] != "zh"@[0]);
    assert("ja"@[0] != "ko"@[0]);
    assert("ja"@[0] != "es"@[0]);
    assert("ja"@[0] != "de"@[0]);
    assert("ja"@[0] != "fr"@[0]);
    assert("en"@[0] != "zh"@[0]);
    assert("en"@[0] != "ko"@[0]);
    assert("en"@[1] != "es"@[1]);
    assert("en"@[0] != "de"@[0]);
    assert("en"@[0] != "fr"@[0]);
    assert("zh"@[0] != "ko"@[0]);
    assert("zh"@[0] != "es"@[0]);
    assert("zh"@[0] != "de"@[0]);
    assert("zh"@[0] != "fr"@[0]);
    assert("ko"@[0] != "es"@[0]);
    assert("ko"@[0] != "de"@[0]);
    assert("ko"@[0] != "fr"@[0]);
    assert("es"@[0] != "de"@[0]);
    assert("es"@[0] != "fr"@[0]);
    assert("de"@[0] != "fr"@[0]);
    let all = SUPPORTED_LANGUAGES@;
    assert(all == seq!["ja", "en", "zh", "ko", "es", "de", "fr"]);
    assert(all[0]@ == "ja"@ && all[1]@ == "en"@ && all[2]@ == "zh"@ && all[3]@ == "ko"@);
    assert(all[4]@ == "es"@ && all[5]@ == "de"@ && all[6]@ == "fr"@);
}

} // verus!
