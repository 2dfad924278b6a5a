//! "New from Template": the starter templates, the choice offered, and the
//! names tried for a fresh project directory.
use vstd::prelude::*;
use vstd::string::*;
use crate::install::str_views;
use crate::text::{decimal, push_decimal};
use crate::template_files::{
    PYTHON_MAIN_PY,
    PYTHON_REQUIREMENTS_TXT,
    PYTHON_TEST_MAIN_PY,
    PYTHON_GITIGNORE,
    PYTHON_README_MD,
    WEB_GAME_INDEX_HTML,
    WEB_GAME_GAME_JS,
    WEB_GAME_STYLE_CSS,
    WEB_GAME_README_MD,
    ANDROID_SETTINGS_GRADLE_KTS,
    ANDROID_BUILD_GRADLE_KTS,
    ANDROID_GRADLE_PROPERTIES,
    ANDROID_APP_BUILD_GRADLE_KTS,
    ANDROID_MANIFEST_XML,
    ANDROID_MAIN_ACTIVITY_KT,
    ANDROID_ACTIVITY_MAIN_XML,
    ANDROID_STRINGS_XML,
    ANDROID_GITIGNORE,
    ANDROID_README_MD,
    NODE_TS_PACKAGE_JSON,
    NODE_TS_TSCONFIG_JSON,
    NODE_TS_INDEX_TS,
    NODE_TS_GITIGNORE,
    NODE_TS_README_MD,
};

verus! {

/// A file of a template: its path relative to the project root and its
/// text.
pub struct TemplateFile {
    pub path: &'static str,
    pub contents: &'static str,
}

/// A starter project template.
pub struct Template {
    /// The label shown in the picker.
    pub label: &'static str,
    /// The default directory name of a new project.
    pub slug: &'static str,
    /// The files of the project.
    pub files: Vec<TemplateFile>,
}

/// The paths and texts of `files`.
pub open spec fn file_views(files: Seq<TemplateFile>) -> Seq<(Seq<char>, Seq<char>)> {
    files.map_values(|f: TemplateFile| (f.path@, f.contents@))
}

pub open spec fn template_labels() -> Seq<Seq<char>> {
    seq!["Python app"@, "Web / HTML5 game"@, "Android app"@, "Node / TypeScript"@]
}

pub open spec fn template_slugs() -> Seq<Seq<char>> {
    seq!["python-app"@, "web-game"@, "android-app"@, "node-ts-app"@]
}

/// The files of the python template: paths and texts.
pub open spec fn python_files() -> Seq<(Seq<char>, Seq<char>)> {
    seq![
        ("main.py"@, PYTHON_MAIN_PY@),
        ("requirements.txt"@, PYTHON_REQUIREMENTS_TXT@),
        ("tests/test_main.py"@, PYTHON_TEST_MAIN_PY@),
        (".gitignore"@, PYTHON_GITIGNORE@),
        ("README.md"@, PYTHON_README_MD@),
    ]
}

/// The files of the web game template: paths and texts.
pub open spec fn web_game_files() -> Seq<(Seq<char>, Seq<char>)> {
    seq![
        ("index.html"@, WEB_GAME_INDEX_HTML@),
        ("game.js"@, WEB_GAME_GAME_JS@),
        ("style.css"@, WEB_GAME_STYLE_CSS@),
        ("README.md"@, WEB_GAME_README_MD@),
    ]
}

/// The files of the android template: paths and texts.
pub open spec fn android_files() -> Seq<(Seq<char>, Seq<char>)> {
    seq![
        ("settings.gradle.kts"@, ANDROID_SETTINGS_GRADLE_KTS@),
        ("build.gradle.kts"@, ANDROID_BUILD_GRADLE_KTS@),
        ("gradle.properties"@, ANDROID_GRADLE_PROPERTIES@),
        ("app/build.gradle.kts"@, ANDROID_APP_BUILD_GRADLE_KTS@),
        ("app/src/main/AndroidManifest.xml"@, ANDROID_MANIFEST_XML@),
        ("app/src/main/kotlin/dev/lingcode/app/MainActivity.kt"@, ANDROID_MAIN_ACTIVITY_KT@),
        ("app/src/main/res/layout/activity_main.xml"@, ANDROID_ACTIVITY_MAIN_XML@),
        ("app/src/main/res/values/strings.xml"@, ANDROID_STRINGS_XML@),
        (".gitignore"@, ANDROID_GITIGNORE@),
        ("README.md"@, ANDROID_README_MD@),
    ]
}

/// The files of the node ts template: paths and texts.
pub open spec fn node_ts_files() -> Seq<(Seq<char>, Seq<char>)> {
    seq![
        ("package.json"@, NODE_TS_PACKAGE_JSON@),
        ("tsconfig.json"@, NODE_TS_TSCONFIG_JSON@),
        ("src/index.ts"@, NODE_TS_INDEX_TS@),
        (".gitignore"@, NODE_TS_GITIGNORE@),
        ("README.md"@, NODE_TS_README_MD@),
    ]
}

/// The files of each template, in the order of `template_labels`.
pub open spec fn template_files() -> Seq<Seq<(Seq<char>, Seq<char>)>> {
    seq![python_files(), web_game_files(), android_files(), node_ts_files()]
}

/// The templates, in the order the picker offers them, with their files.
pub fn templates() -> (r: Vec<Template>)
    ensures
        r@.len() == 4,
        forall|i: int| 0 <= i < 4 ==> {
            &&& (#[trigger] r@[i]).label@ == template_labels()[i]
            &&& r@[i].slug@ == template_slugs()[i]
            &&& file_views(r@[i].files@) == template_files()[i]
        },
{
    let python = vec![
        TemplateFile { path: "main.py", contents: PYTHON_MAIN_PY },
        TemplateFile { path: "requirements.txt", contents: PYTHON_REQUIREMENTS_TXT },
        TemplateFile { path: "tests/test_main.py", contents: PYTHON_TEST_MAIN_PY },
        TemplateFile { path: ".gitignore", contents: PYTHON_GITIGNORE },
        TemplateFile { path: "README.md", contents: PYTHON_README_MD },
    ];
    assert(file_views(python@) =~= python_files());
    let web_game = vec![
        TemplateFile { path: "index.html", contents: WEB_GAME_INDEX_HTML },
        TemplateFile { path: "game.js", contents: WEB_GAME_GAME_JS },
        TemplateFile { path: "style.css", contents: WEB_GAME_STYLE_CSS },
        TemplateFile { path: "README.md", contents: WEB_GAME_README_MD },
    ];
    assert(file_views(web_game@) =~= web_game_files());
    let android = vec![
        TemplateFile { path: "settings.gradle.kts", contents: ANDROID_SETTINGS_GRADLE_KTS },
        TemplateFile { path: "build.gradle.kts", contents: ANDROID_BUILD_GRADLE_KTS },
        TemplateFile { path: "gradle.properties", contents: ANDROID_GRADLE_PROPERTIES },
        TemplateFile { path: "app/build.gradle.kts", contents: ANDROID_APP_BUILD_GRADLE_KTS },
        TemplateFile { path: "app/src/main/AndroidManifest.xml", contents: ANDROID_MANIFEST_XML },
        TemplateFile { path: "app/src/main/kotlin/dev/lingcode/app/MainActivity.kt", contents: ANDROID_MAIN_ACTIVITY_KT },
        TemplateFile { path: "app/src/main/res/layout/activity_main.xml", contents: ANDROID_ACTIVITY_MAIN_XML },
        TemplateFile { path: "app/src/main/res/values/strings.xml", contents: ANDROID_STRINGS_XML },
        TemplateFile { path: ".gitignore", contents: ANDROID_GITIGNORE },
        TemplateFile { path: "README.md", contents: ANDROID_README_MD },
    ];
    assert(file_views(android@) =~= android_files());
    let node_ts = vec![
        TemplateFile { path: "package.json", contents: NODE_TS_PACKAGE_JSON },
        TemplateFile { path: "tsconfig.json", contents: NODE_TS_TSCONFIG_JSON },
        TemplateFile { path: "src/index.ts", contents: NODE_TS_INDEX_TS },
        TemplateFile { path: ".gitignore", contents: NODE_TS_GITIGNORE },
        TemplateFile { path: "README.md", contents: NODE_TS_README_MD },
    ];
    assert(file_views(node_ts@) =~= node_ts_files());
    vec![
        Template { label: "Python app", slug: "python-app", files: python },
        Template { label: "Web / HTML5 game", slug: "web-game", files: web_game },
        Template { label: "Android app", slug: "android-app", files: android },
        Template { label: "Node / TypeScript", slug: "node-ts-app", files: node_ts },
    ]
}

/// The answers of the template prompt: each template's label, then `Cancel`.
pub fn template_answers(templates: &[Template]) -> (r: Vec<&'static str>)
    ensures
        str_views(r@) == templates@.map_values(|t: Template| t.label@).push("Cancel"@),
{
    let mut r: Vec<&'static str> = Vec::new();
    let mut i: usize = 0;
    while i < templates.len()
        invariant
            i <= templates.len(),
            str_views(r@) == templates@.take(i as int).map_values(|t: Template| t.label@),
        decreases templates.len() - i,
    {
        r.push(templates[i].label);
        assert(templates@.take(i + 1).map_values(|t: Template| t.label@) == templates@.take(
            i as int,
        ).map_values(|t: Template| t.label@).push(templates@[i as int].label@));
        i = i + 1;
    }
    r.push("Cancel");
    assert(templates@.take(templates.len() as int) == templates@);
    r
}

/// The template chosen by answer `index`: none for `Cancel` (or any answer
/// past the templates).
pub fn chosen_template(templates: &[Template], index: usize) -> (r: Option<&Template>)
    ensures
        index < templates@.len() ==> r == Some(&templates@[index as int]),
        index >= templates@.len() ==> r is None,
{
    if index < templates.len() {
        Some(&templates[index])
    } else {
        None
    }
}

/// The directory name tried at `attempt`: the slug, then the slug with `-1`,
/// `-2`, … appended.
pub open spec fn candidate_name(slug: Seq<char>, attempt: nat) -> Seq<char> {
    if attempt == 0 {
        slug
    } else {
        slug + "-"@ + decimal(attempt)
    }
}

/// The directory name tried at `attempt` for a new project from `slug`.
pub fn candidate_dir_name(slug: &str, attempt: u64) -> (r: String)
    ensures
        r@ == candidate_name(slug@, attempt as nat),
{
    let mut r = String::from_str(slug);
    if attempt > 0 {
        r.append("-");
        push_decimal(&mut r, attempt);
    }
    r
}


/// The search for an unused directory name for a new project: the attempt
/// it has reached.
pub struct DirSearch {
    pub slug: String,
    pub attempt: u64,
}

impl DirSearch {
    /// A search that starts from `slug`.
    pub fn new(slug: &str) -> (d: Self)
        ensures
            d.slug@ == slug@,
            d.attempt == 0,
    {
        DirSearch { slug: String::from_str(slug), attempt: 0 }
    }

    /// The name to try now.
    pub fn candidate(&self) -> (r: String)
        ensures
            r@ == candidate_name(self.slug@, self.attempt as nat),
    {
        candidate_dir_name(self.slug.as_str(), self.attempt)
    }

    /// The name tried is in use: move on to the next.
    pub fn on_taken(&mut self)
        requires
            old(self).attempt < u64::MAX,
        ensures
            final(self).slug == old(self).slug,
            final(self).attempt == old(self).attempt + 1,
    {
        self.attempt = self.attempt + 1;
    }
}

proof fn lemma_decimal_len(n: nat)
    ensures
        n < 10 ==> decimal(n).len() == 1,
        n >= 10 ==> decimal(n).len() >= 2,
    decreases n,
{
    if n >= 10 {
        lemma_decimal_len(n / 10);
    }
}

/// Different numbers have different decimal texts.
pub proof fn lemma_decimal_injective(a: nat, b: nat)
    requires
        decimal(a) == decimal(b),
    ensures
        a == b,
    decreases a,
{
    lemma_decimal_len(a);
    lemma_decimal_len(b);
    if a < 10 && b < 10 {
        let digits = seq!['0', '1', '2', '3', '4', '5', '6', '7', '8', '9'];
        assert(decimal(a)[0] == digits[a as int]);
        assert(decimal(b)[0] == digits[b as int]);
    } else if a >= 10 && b >= 10 {
        assert(decimal(a).drop_last() == decimal(a / 10));
        assert(decimal(b).drop_last() == decimal(b / 10));
        lemma_decimal_injective(a / 10, b / 10);
        let digits = seq!['0', '1', '2', '3', '4', '5', '6', '7', '8', '9'];
        assert(decimal(a).last() == digits[(a % 10) as int]);
        assert(decimal(b).last() == digits[(b % 10) as int]);
    }
}

/// The names tried for a new project directory never repeat, so the search
/// for an unused one moves on at each attempt.
pub proof fn law_candidate_names_distinct(slug: Seq<char>, a: nat, b: nat)
    requires
        a != b,
    ensures
        candidate_name(slug, a) != candidate_name(slug, b),
{
    lemma_decimal_len(a);
    lemma_decimal_len(b);
    reveal_strlit("-");
    if a > 0 && b > 0 && candidate_name(slug, a) == candidate_name(slug, b) {
        let n: int = slug.len() as int + 1;
        assert(candidate_name(slug, a).skip(n) == decimal(a));
        assert(candidate_name(slug, b).skip(n) == decimal(b));
        lemma_decimal_injective(a, b);
    }
    if a == 0 || b == 0 {
        assert(candidate_name(slug, a).len() != candidate_name(slug, b).len());
    }
}

/// The paths of the files of each template: the Python app, the web game,
/// the Android app and the Node / TypeScript app, in order.
pub proof fn law_template_paths()
    ensures
        template_files()[0].map_values(|f: (Seq<char>, Seq<char>)| f.0) == seq![
            "main.py"@,
            "requirements.txt"@,
            "tests/test_main.py"@,
            ".gitignore"@,
            "README.md"@,
        ],
        template_files()[1].map_values(|f: (Seq<char>, Seq<char>)| f.0) == seq![
            "index.html"@,
            "game.js"@,
            "style.css"@,
            "README.md"@,
        ],
        template_files()[2].map_values(|f: (Seq<char>, Seq<char>)| f.0) == seq![
            "settings.gradle.kts"@,
            "build.gradle.kts"@,
            "gradle.properties"@,
            "app/build.gradle.kts"@,
            "app/src/main/AndroidManifest.xml"@,
            "app/src/main/kotlin/dev/lingcode/app/MainActivity.kt"@,
            "app/src/main/res/layout/activity_main.xml"@,
            "app/src/main/res/values/strings.xml"@,
            ".gitignore"@,
            "README.md"@,
        ],
        template_files()[3].map_values(|f: (Seq<char>, Seq<char>)| f.0) == seq![
            "package.json"@,
            "tsconfig.json"@,
            "src/index.ts"@,
            ".gitignore"@,
            "README.md"@,
        ],
{
    assert(template_files()[0].map_values(|f: (Seq<char>, Seq<char>)| f.0) =~= seq![
        "main.py"@,
        "requirements.txt"@,
        "tests/test_main.py"@,
        ".gitignore"@,
        "README.md"@,
    ]);
    assert(template_files()[1].map_values(|f: (Seq<char>, Seq<char>)| f.0) =~= seq![
        "index.html"@,
        "game.js"@,
        "style.css"@,
        "README.md"@,
    ]);
    assert(template_files()[2].map_values(|f: (Seq<char>, Seq<char>)| f.0) =~= seq![
        "settings.gradle.kts"@,
        "build.gradle.kts"@,
        "gradle.properties"@,
        "app/build.gradle.kts"@,
        "app/src/main/AndroidManifest.xml"@,
        "app/src/main/kotlin/dev/lingcode/app/MainActivity.kt"@,
        "app/src/main/res/layout/activity_main.xml"@,
        "app/src/main/res/values/strings.xml"@,
        ".gitignore"@,
        "README.md"@,
    ]);
    assert(template_files()[3].map_values(|f: (Seq<char>, Seq<char>)| f.0) =~= seq![
        "package.json"@,
        "tsconfig.json"@,
        "src/index.ts"@,
        ".gitignore"@,
        "README.md"@,
    ]);
}

/// The web game's page finds what it loads: `index.html` names the script
/// `game.js` and the style sheet `style.css` by relative path, and both are
/// files of the template, next to the page.
pub proof fn law_web_game_page_finds_its_files()
    ensures
        exists|i: int, p: int, q: int|
            0 <= i < template_files()[1].len() && template_files()[1][i].0 == "index.html"@
                && crate::text::occurs_at(template_files()[1][i].1, "src=\"game.js\""@, p)
                && crate::text::occurs_at(template_files()[1][i].1, "href=\"style.css\""@, q),
        exists|j: int| 0 <= j < template_files()[1].len() && template_files()[1][j].0 == "game.js"@,
        exists|j: int| 0 <= j < template_files()[1].len() && template_files()[1][j].0 == "style.css"@,
{
    let files = template_files()[1];
    reveal_strlit("<!DOCTYPE html>
<html lang=\"en\">
<head>
  <meta charset=\"utf-8\">
  <meta name=\"viewport\" content=\"width=device-width, initial-scale=1\">
  <title>Web Game</title>
  <link rel=\"stylesheet\" href=\"style.css\">
</head>
<body>
  <canvas id=\"game\" width=\"640\" height=\"360\"></canvas>
  <p class=\"hint\">Move with the arrow keys.</p>
  <script src=\"game.js\"></script>
</body>
</html>
");
    reveal_strlit("src=\"game.js\"");
    reveal_strlit("href=\"style.css\"");
    let html = files[0].1;
    assert(html == "<!DOCTYPE html>
<html lang=\"en\">
<head>
  <meta charset=\"utf-8\">
  <meta name=\"viewport\" content=\"width=device-width, initial-scale=1\">
  <title>Web Game</title>
  <link rel=\"stylesheet\" href=\"style.css\">
</head>
<body>
  <canvas id=\"game\" width=\"640\" height=\"360\"></canvas>
  <p class=\"hint\">Move with the arrow keys.</p>
  <script src=\"game.js\"></script>
</body>
</html>
"@);
    assert(html.subrange(333int, 346int) =~= "src=\"game.js\""@);
    assert(html.subrange(187int, 203int) =~= "href=\"style.css\""@);
    assert(crate::text::occurs_at(html, "src=\"game.js\""@, 333));
    assert(crate::text::occurs_at(html, "href=\"style.css\""@, 187));
    assert(files[1].0 == "game.js"@);
    assert(files[2].0 == "style.css"@);
}

} // verus!
