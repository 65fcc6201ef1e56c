//! The page that shows a name: a terminal in green on black.

use crate::text::{occurs_at, occurs_in, push_char};
use vstd::prelude::*;

verus! {

/// The page up to the name.
pub const PAGE_HEAD: &'static str = r#"<!DOCTYPE html>
<html lang="en">
<head>
    <meta charset="UTF-8">
    <meta name="viewport" content="width=device-width, initial-scale=1.0">
    <title>COOL-NAMES-GEN v0.1.0 | TERMINAL</title>
    <style>
        @import url('https://fonts.googleapis.com/css2?family=VT323&display=swap');

        * {
            margin: 0;
            padding: 0;
            box-sizing: border-box;
        }

        body {
            font-family: 'VT323', 'Courier New', monospace;
            background: #000000;
            color: #33ff33;
            min-height: 100vh;
            display: flex;
            justify-content: center;
            align-items: center;
            padding: 20px;
            font-size: 20px;
            position: relative;
            overflow: hidden;
        }

        body::before {
            content: "";
            position: fixed;
            top: 0;
            left: 0;
            width: 100%;
            height: 100%;
            background:
                repeating-linear-gradient(
                    0deg,
                    rgba(0, 0, 0, 0.15),
                    rgba(0, 0, 0, 0.15) 1px,
                    transparent 1px,
                    transparent 2px
                );
            pointer-events: none;
            z-index: 999;
        }

        body::after {
            content: "";
            position: fixed;
            top: 0;
            left: 0;
            width: 100%;
            height: 100%;
            background: radial-gradient(ellipse at center, transparent 0%, rgba(0,0,0,0.3) 100%);
            pointer-events: none;
            z-index: 998;
        }

        .terminal {
            background: #000000;
            border: 3px solid #33ff33;
            padding: 30px;
            max-width: 900px;
            width: 100%;
            box-shadow: 0 0 40px rgba(51, 255, 51, 0.4),
                        inset 0 0 100px rgba(51, 255, 51, 0.03);
            position: relative;
            z-index: 1;
        }

        .ascii-header {
            color: #00ff00;
            font-size: 0.8em;
            line-height: 1.2;
            margin-bottom: 20px;
            text-align: center;
            text-shadow: 0 0 5px rgba(0, 255, 0, 0.7);
        }

        .system-info {
            color: #33ff33;
            font-size: 0.9em;
            margin-bottom: 20px;
            opacity: 0.8;
        }

        .info-line {
            margin: 5px 0;
        }

        .separator {
            color: #33ff33;
            margin: 20px 0;
            opacity: 0.5;
        }

        .prompt {
            color: #33ff33;
            margin: 10px 0;
        }

        .prompt::before {
            content: "root@localhost:~# ";
            color: #00ff00;
            font-weight: bold;
        }

        .output {
            color: #33ff33;
            margin: 10px 0 10px 20px;
            opacity: 0.9;
        }

        .name-box {
            background: #001100;
            color: #00ff00;
            padding: 25px;
            border: 2px solid #33ff33;
            font-size: 2.2em;
            font-weight: bold;
            text-align: center;
            letter-spacing: 5px;
            word-break: break-word;
            text-shadow: 0 0 15px rgba(0, 255, 0, 0.8);
            margin: 20px 0;
            position: relative;
        }

        .name-box::before {
            content: ">> ";
            color: #00ff00;
        }

        .name-box::after {
            content: " <<";
            color: #00ff00;
        }

        .command {
            margin-top: 20px;
            padding: 10px 25px;
            font-size: 1.1em;
            background: transparent;
            color: #33ff33;
            border: 2px solid #33ff33;
            cursor: pointer;
            font-family: 'VT323', monospace;
            font-weight: 600;
            transition: all 0.1s ease;
            letter-spacing: 2px;
            display: block;
            width: 100%;
        }

        .command:hover {
            background: #33ff33;
            color: #000000;
            box-shadow: 0 0 25px rgba(51, 255, 51, 0.6);
            text-shadow: none;
        }

        .cursor {
            display: inline-block;
            width: 12px;
            height: 22px;
            background: #33ff33;
            animation: blink 0.8s infinite;
            margin-left: 5px;
            box-shadow: 0 0 5px rgba(51, 255, 51, 0.8);
        }

        @keyframes blink {
            0%, 49% { opacity: 1; }
            50%, 100% { opacity: 0; }
        }

        .footer {
            margin-top: 20px;
            color: #33ff33;
            font-size: 0.85em;
            opacity: 0.6;
            text-align: center;
        }

        @media (max-width: 600px) {
            .terminal {
                padding: 20px;
            }

            .ascii-header {
                font-size: 0.6em;
            }

            .name-box {
                font-size: 1.5em;
                padding: 15px;
                letter-spacing: 2px;
            }
        }
    </style>
</head>
<body>
    <div class="terminal">
        <pre class="ascii-header">
 ██████╗ ██████╗  ██████╗ ██╗         ███╗   ██╗ █████╗ ███╗   ███╗███████╗███████╗
██╔════╝██╔═══██╗██╔═══██╗██║         ████╗  ██║██╔══██╗████╗ ████║██╔════╝██╔════╝
██║     ██║   ██║██║   ██║██║         ██╔██╗ ██║███████║██╔████╔██║█████╗  ███████╗
██║     ██║   ██║██║   ██║██║         ██║╚██╗██║██╔══██║██║╚██╔╝██║██╔══╝  ╚════██║
╚██████╗╚██████╔╝╚██████╔╝███████╗    ██║ ╚████║██║  ██║██║ ╚═╝ ██║███████╗███████║
 ╚═════╝ ╚═════╝  ╚═════╝ ╚══════╝    ╚═╝  ╚═══╝╚═╝  ╚═╝╚═╝     ╚═╝╚══════╝╚══════╝
        </pre>

        <div class="system-info">
            <div class="info-line">[SYSTEM] Name Generator v0.1.0 | Build: RELEASE</div>
            <div class="info-line">[STATUS] Connection established | Protocol: HTTP/1.1</div>
            <div class="info-line">[TIME] <script>document.write(new Date().toISOString())</script></div>
        </div>

        <div class="separator">════════════════════════════════════════════════════════════════════</div>

        <div class="prompt">./name-generator --mode random --output stdout</div>
        <div class="output">[INFO] Initializing random name generator...</div>
        <div class="output">[INFO] Loading adjective database... OK</div>
        <div class="output">[INFO] Loading noun database... OK</div>
        <div class="output">[SUCCESS] Name generated successfully!</div>

        <div class="name-box">"#;

/// The page between the name and the time that making it took.
pub const PAGE_MIDDLE: &'static str = r#"</div>

        <div class="output">[STATS] Generation time: 0."#;

/// The page after the time.
pub const PAGE_TAIL: &'static str = r#"ms | Entropy: HIGH</div>

        <div class="prompt">
            <span class="cursor"></span>
        </div>

        <button class="command" onclick="location.reload()">[EXECUTE] ./generate-new-name.sh</button>

        <div class="footer">
            ┌────────────────────────────────────────────────┐<br>
            │ Press ENTER to generate another cool name      │<br>
            │ [ESC] Exit | [F1] Help | [F5] Refresh         │<br>
            └────────────────────────────────────────────────┘
        </div>
    </div>
    <script>
        document.addEventListener('keydown', function(e) {
            if (e.key === 'Enter' || e.key === 'F5') {
                e.preventDefault();
                location.reload();
            }
        });
    </script>
</body>
</html>"#;

/// The digit for a number below ten.
pub open spec fn digit(value: nat) -> char {
    if value == 0 {
        '0'
    } else if value == 1 {
        '1'
    } else if value == 2 {
        '2'
    } else if value == 3 {
        '3'
    } else if value == 4 {
        '4'
    } else if value == 5 {
        '5'
    } else if value == 6 {
        '6'
    } else if value == 7 {
        '7'
    } else if value == 8 {
        '8'
    } else {
        '9'
    }
}

/// A number in decimal digits, without leading zeros.
pub open spec fn decimal(value: nat) -> Seq<char>
    decreases value,
{
    if value < 10 {
        seq![digit(value)]
    } else {
        decimal(value / 10).push(digit(value % 10))
    }
}

fn digit_of(value: u128) -> (c: char)
    requires
        value < 10,
    ensures
        c == digit(value as nat),
{
    if value == 0 {
        '0'
    } else if value == 1 {
        '1'
    } else if value == 2 {
        '2'
    } else if value == 3 {
        '3'
    } else if value == 4 {
        '4'
    } else if value == 5 {
        '5'
    } else if value == 6 {
        '6'
    } else if value == 7 {
        '7'
    } else if value == 8 {
        '8'
    } else {
        '9'
    }
}

/// A number in decimal digits, without leading zeros.
pub fn decimal_text(value: u128) -> (text: String)
    ensures
        text@ == decimal(value as nat),
    decreases value,
{
    if value < 10 {
        let mut text = String::new();
        push_char(&mut text, digit_of(value));
        text
    } else {
        let mut text = decimal_text(value / 10);
        push_char(&mut text, digit_of(value % 10));
        text
    }
}

/// The text of the page for `name`, where `time` stands for the time shown.
pub open spec fn page_for(name: Seq<char>, time: Seq<char>) -> Seq<char> {
    PAGE_HEAD@ + name + PAGE_MIDDLE@ + time + PAGE_TAIL@
}

/// The HTML document that shows `name`. The time it shows is the clock's
/// milliseconds within the current second, for which the caller hands in
/// the milliseconds that the clock counts.
pub fn create_html_response(name: &str, milliseconds: u128) -> (page: String)
    ensures
        page@ == page_for(name@, decimal((milliseconds % 1000) as nat)),
        occurs_in(name@, page@),
{
    let time = decimal_text(milliseconds % 1000);
    let page = String::from_str(PAGE_HEAD).concat(name).concat(PAGE_MIDDLE).concat(
        time.as_str(),
    ).concat(PAGE_TAIL);
    proof {
        let at = PAGE_HEAD@.len() as int;
        assert(page@.subrange(at, at + name@.len()) =~= name@);
        assert(occurs_at(name@, page@, at));
    }
    page
}

} // verus!
