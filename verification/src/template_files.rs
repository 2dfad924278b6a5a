//! The text of the files of the starter templates.
use vstd::prelude::*;

verus! {

/// `main.py` of the python template.
pub const PYTHON_MAIN_PY: &'static str = "\"\"\"A starter Python app.\"\"\"


def greet(name: str) -> str:
    \"\"\"Returns the greeting for `name`.\"\"\"
    return f\"Hello, {name}!\"


def main() -> None:
    print(greet(\"world\"))


if __name__ == \"__main__\":
    main()
";

/// `requirements.txt` of the python template.
pub const PYTHON_REQUIREMENTS_TXT: &'static str = "pytest>=8.0
";

/// `tests/test_main.py` of the python template.
pub const PYTHON_TEST_MAIN_PY: &'static str = "from main import greet


def test_greet() -> None:
    assert greet(\"LingCode\") == \"Hello, LingCode!\"
";

/// `.gitignore` of the python template.
pub const PYTHON_GITIGNORE: &'static str = "__pycache__/
*.pyc
.venv/
.pytest_cache/
";

/// `README.md` of the python template.
pub const PYTHON_README_MD: &'static str = "# Python app

A starter Python project scaffolded by LingCode.

## Setup

    python -m venv .venv
    .venv/bin/pip install -r requirements.txt

## Run

    python main.py

## Test

    python -m pytest
";

/// `index.html` of the web game template.
pub const WEB_GAME_INDEX_HTML: &'static str = "<!DOCTYPE html>
<html lang=\"en\">
<head>
  <meta charset=\"utf-8\">
  <meta name=\"viewport\" content=\"width=device-width, initial-scale=1\">
  <title>Web Game</title>
  <link rel=\"stylesheet\" href=\"style.css\">
</head>
<body>
  <canvas id=\"game\" width=\"640\" height=\"360\"></canvas>
  <p class=\"hint\">Move with the arrow keys.</p>
  <script src=\"game.js\"></script>
</body>
</html>
";

/// `game.js` of the web game template.
pub const WEB_GAME_GAME_JS: &'static str = "const canvas = document.getElementById(\"game\");
const ctx = canvas.getContext(\"2d\");

const player = { x: 300, y: 160, size: 24, speed: 4 };
const keys = new Set();

addEventListener(\"keydown\", (e) => keys.add(e.key));
addEventListener(\"keyup\", (e) => keys.delete(e.key));

function update() {
  if (keys.has(\"ArrowLeft\")) player.x -= player.speed;
  if (keys.has(\"ArrowRight\")) player.x += player.speed;
  if (keys.has(\"ArrowUp\")) player.y -= player.speed;
  if (keys.has(\"ArrowDown\")) player.y += player.speed;
  player.x = Math.max(0, Math.min(canvas.width - player.size, player.x));
  player.y = Math.max(0, Math.min(canvas.height - player.size, player.y));
}

function draw() {
  ctx.fillStyle = \"#101820\";
  ctx.fillRect(0, 0, canvas.width, canvas.height);
  ctx.fillStyle = \"#f2aa4c\";
  ctx.fillRect(player.x, player.y, player.size, player.size);
}

function frame() {
  update();
  draw();
  requestAnimationFrame(frame);
}

requestAnimationFrame(frame);
";

/// `style.css` of the web game template.
pub const WEB_GAME_STYLE_CSS: &'static str = "body {
  margin: 0;
  min-height: 100vh;
  display: flex;
  flex-direction: column;
  align-items: center;
  justify-content: center;
  background: #0b0f14;
  color: #cfd8dc;
  font-family: system-ui, sans-serif;
}

canvas {
  border: 1px solid #37474f;
}

.hint {
  opacity: 0.7;
}
";

/// `README.md` of the web game template.
pub const WEB_GAME_README_MD: &'static str = "# Web / HTML5 game

A starter canvas game scaffolded by LingCode: no build step, no dependencies.

Open `index.html` in a browser, or serve the folder:

    python -m http.server

Then visit http://localhost:8000 and move the square with the arrow keys.
";

/// `settings.gradle.kts` of the android template.
pub const ANDROID_SETTINGS_GRADLE_KTS: &'static str = "pluginManagement {
    repositories {
        google()
        mavenCentral()
        gradlePluginPortal()
    }
}

dependencyResolutionManagement {
    repositories {
        google()
        mavenCentral()
    }
}

rootProject.name = \"LingCodeApp\"
\u{69}nclude(\":app\")
";

/// `build.gradle.kts` of the android template.
pub const ANDROID_BUILD_GRADLE_KTS: &'static str = "plugins {
    id(\"com.android.application\") version \"8.5.2\" apply false
    id(\"org.jetbrains.kotlin.android\") version \"1.9.24\" apply false
}
";

/// `gradle.properties` of the android template.
pub const ANDROID_GRADLE_PROPERTIES: &'static str = "org.gradle.jvmargs=-Xmx2048m -Dfile.encoding=UTF-8
android.useAndroidX=true
kotlin.code.style=official
android.nonTransitiveRClass=true
";

/// `app/build.gradle.kts` of the android template.
pub const ANDROID_APP_BUILD_GRADLE_KTS: &'static str = "plugins {
    id(\"com.android.application\")
    id(\"org.jetbrains.kotlin.android\")
}

android {
    namespace = \"dev.lingcode.app\"
    compileSdk = 34

    defaultConfig {
        applicationId = \"dev.lingcode.app\"
        minSdk = 24
        targetSdk = 34
        versionCode = 1
        versionName = \"1.0\"
    }

    buildTypes {
        release {
            isMinifyEnabled = false
        }
    }

    compileOptions {
        sourceCompatibility = JavaVersion.VERSION_17
        targetCompatibility = JavaVersion.VERSION_17
    }

    kotlinOptions {
        jvmTarget = \"17\"
    }
}

dependencies {
    implementation(\"androidx.appcompat:appcompat:1.7.0\")
}
";

/// `app/src/main/AndroidManifest.xml` of the android template.
pub const ANDROID_MANIFEST_XML: &'static str = "<?xml version=\"1.0\" encoding=\"utf-8\"?>
<manifest xmlns:android=\"http://schemas.android.com/apk/res/android\">

    <application
        android:label=\"@string/app_name\"
        android:theme=\"@style/Theme.AppCompat.Light.DarkActionBar\">
        <activity
            android:name=\".MainActivity\"
            android:exported=\"true\">
            <intent-filter>
                <action android:name=\"android.intent.action.MAIN\" />
                <category android:name=\"android.intent.category.LAUNCHER\" />
            </intent-filter>
        </activity>
    </application>

</manifest>
";

/// `app/src/main/kotlin/dev/lingcode/app/MainActivity.kt` of the android template.
pub const ANDROID_MAIN_ACTIVITY_KT: &'static str = "package dev.lingcode.app

import android.os.Bundle
import androidx.appcompat.app.AppCompatActivity

class MainActivity : AppCompatActivity() {
    override fun onCreate(savedInstanceState: Bundle?) {
        super.onCreate(savedInstanceState)
        setContentView(R.layout.activity_main)
    }
}
";

/// `app/src/main/res/layout/activity_main.xml` of the android template.
pub const ANDROID_ACTIVITY_MAIN_XML: &'static str = "<?xml version=\"1.0\" encoding=\"utf-8\"?>
<LinearLayout xmlns:android=\"http://schemas.android.com/apk/res/android\"
    android:layout_width=\"match_parent\"
    android:layout_height=\"match_parent\"
    android:gravity=\"center\"
    android:orientation=\"vertical\">

    <TextView
        android:layout_width=\"wrap_content\"
        android:layout_height=\"wrap_content\"
        android:text=\"@string/hello\"
        android:textSize=\"24sp\" />

</LinearLayout>
";

/// `app/src/main/res/values/strings.xml` of the android template.
pub const ANDROID_STRINGS_XML: &'static str = "<?xml version=\"1.0\" encoding=\"utf-8\"?>
<resources>
    <string name=\"app_name\">LingCode App</string>
    <string name=\"hello\">Hello from LingCode!</string>
</resources>
";

/// `.gitignore` of the android template.
pub const ANDROID_GITIGNORE: &'static str = "*.iml
.gradle/
/local.properties
/.idea/
.DS_Store
/build/
/app/build/
/captures/
.cxx/
";

/// `README.md` of the android template.
pub const ANDROID_README_MD: &'static str = "# Android app

A minimal Kotlin + Gradle Android app scaffolded by LingCode.

## First-time setup

This template ships without the Gradle wrapper binary. Generate it once
(requires a system Gradle, or Android Studio's bundled one):

    gradle wrapper

## Build & run with LingCode

Use the **Android** menu in LingCode:

- **Check Android Toolchain** — verify SDK / JDK / adb
- **Build Debug APK** — `gradlew assembleDebug`
- **Run on Device** — install + launch on a connected device/emulator

You'll need the Android SDK installed and `local.properties` pointing at it
(`sdk.dir=/path/to/Android/Sdk`), or set `ANDROID_HOME`.
";

/// `package.json` of the node ts template.
pub const NODE_TS_PACKAGE_JSON: &'static str = "{
  \"name\": \"node-ts-app\",
  \"version\": \"0.1.0\",
  \"private\": true,
  \"type\": \"module\",
  \"scripts\": {
    \"build\": \"tsc\",
    \"start\": \"node dist/index.js\",
    \"dev\": \"tsc --watch\"
  },
  \"devDependencies\": {
    \"@types/node\": \"^20.11.0\",
    \"typescript\": \"^5.4.0\"
  }
}
";

/// `tsconfig.json` of the node ts template.
pub const NODE_TS_TSCONFIG_JSON: &'static str = "{
  \"compilerOptions\": {
    \"target\": \"ES2022\",
    \"module\": \"NodeNext\",
    \"moduleResolution\": \"NodeNext\",
    \"rootDir\": \"src\",
    \"outDir\": \"dist\",
    \"strict\": true,
    \"esModuleInterop\": true,
    \"skipLibCheck\": true
  }
}
";

/// `src/index.ts` of the node ts template.
pub const NODE_TS_INDEX_TS: &'static str = "export function greet(name: string): string {
  return `Hello, ${name}!`;
}

console.log(greet(\"world\"));
";

/// `.gitignore` of the node ts template.
pub const NODE_TS_GITIGNORE: &'static str = "node_modules/
dist/
";

/// `README.md` of the node ts template.
pub const NODE_TS_README_MD: &'static str = "# Node / TypeScript app

A starter Node.js project in TypeScript scaffolded by LingCode.

    npm install
    npm run build
    npm start
";

} // verus!
