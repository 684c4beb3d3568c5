//! Stylesheet and script assets shipped with every generated site.

use vstd::prelude::*;
use lightningcss::stylesheet::{ParserOptions, PrinterOptions, StyleSheet};

verus! {

/// What lightningcss makes of a stylesheet when it parses it and prints it
/// minified: the printed code, or the stage that failed (`true` for parsing)
/// with the error's message.
pub uninterp spec fn lightningcss_minified(css: Seq<char>) -> Result<Seq<char>, (bool, Seq<char>)>;

pub open spec fn outcome_view(r: Result<String, (bool, String)>) -> Result<Seq<char>, (bool, Seq<char>)> {
    match r {
        Ok(code) => Ok(code@),
        Err((parsing, message)) => Err((parsing, message@)),
    }
}

/// Relies on lightningcss's `StyleSheet::parse` followed by `StyleSheet::to_css`
/// with `minify` set: the outcome depends on the source text alone.
#[verifier::external_body]
fn lightningcss_minify(css: &str) -> (r: Result<String, (bool, String)>)
    ensures
        outcome_view(r) == lightningcss_minified(css@),
{
    let sheet = match StyleSheet::parse(css, ParserOptions::default()) {
        Ok(sheet) => sheet,
        Err(e) => return Err((true, e.to_string())),
    };
    match sheet.to_css(PrinterOptions { minify: true, ..Default::default() }) {
        Ok(printed) => Ok(printed.code),
        Err(e) => Err((false, e.to_string())),
    }
}

/// Appends `text` to `s`; std documents `push_str` as exactly that.
pub assume_specification[ String::push_str ](s: &mut String, string: &str)
    ensures
        final(s)@ == old(s)@ + string@,
;

pub const PARSE_ERROR_PREFIX: &'static str = "CSS parse error: ";

pub const MINIFY_ERROR_PREFIX: &'static str = "CSS minify error: ";

/// The result `minify_css` owes for a given lightningcss outcome.
pub open spec fn minify_result(outcome: Result<Seq<char>, (bool, Seq<char>)>) -> Result<Seq<char>, Seq<char>> {
    match outcome {
        Ok(code) => Ok(code),
        Err((true, message)) => Err(PARSE_ERROR_PREFIX@ + message),
        Err((false, message)) => Err(MINIFY_ERROR_PREFIX@ + message),
    }
}

pub open spec fn string_result_view(r: Result<String, String>) -> Result<Seq<char>, Seq<char>> {
    match r {
        Ok(s) => Ok(s@),
        Err(e) => Err(e@),
    }
}

/// Asset pipeline utilities.
pub struct AssetPipeline;

impl AssetPipeline {
    /// The main stylesheet of a generated site.
    pub fn generate_css() -> (r: String)
        ensures
            r@ == DEFAULT_CSS@,
    {
        DEFAULT_CSS.to_owned()
    }

    /// The main script of a generated site.
    pub fn generate_js() -> (r: String)
        ensures
            r@ == DEFAULT_JS@,
    {
        DEFAULT_JS.to_owned()
    }

    /// Turns the outcome of a lightningcss minification into the pipeline's
    /// result: the code on success, else the message behind the stage's prefix.
    pub fn finish_minify(outcome: Result<String, (bool, String)>) -> (r: Result<String, String>)
        ensures
            string_result_view(r) == minify_result(outcome_view(outcome)),
    {
        match outcome {
            Ok(code) => Ok(code),
            Err((parsing, message)) => {
                let mut text = if parsing {
                    PARSE_ERROR_PREFIX.to_owned()
                } else {
                    MINIFY_ERROR_PREFIX.to_owned()
                };
                text.push_str(message.as_str());
                Err(text)
            },
        }
    }

    /// Minify CSS using lightningcss.
    pub fn minify_css(css: &str) -> (r: Result<String, String>)
        ensures
            string_result_view(r) == minify_result(lightningcss_minified(css@)),
    {
        let outcome = lightningcss_minify(css);
        Self::finish_minify(outcome)
    }
}

pub const DEFAULT_CSS: &'static str = r#"/* Rafters Docs - Generated Styles */
:root {
  --color-bg: #ffffff;
  --color-bg-secondary: #f9fafb;
  --color-text: #111827;
  --color-text-secondary: #6b7280;
  --color-border: #e5e7eb;
  --color-primary: #3b82f6;
  --color-primary-hover: #2563eb;

  --sidebar-width: 280px;
  --toc-width: 200px;
  --content-max-width: 800px;

  --font-sans: system-ui, -apple-system, sans-serif;
  --font-mono: ui-monospace, monospace;
}

@media (prefers-color-scheme: dark) {
  :root {
    --color-bg: #111827;
    --color-bg-secondary: #1f2937;
    --color-text: #f9fafb;
    --color-text-secondary: #9ca3af;
    --color-border: #374151;
  }
}

* {
  box-sizing: border-box;
  margin: 0;
  padding: 0;
}

body {
  font-family: var(--font-sans);
  background: var(--color-bg);
  color: var(--color-text);
  line-height: 1.6;
}

.layout {
  display: grid;
  grid-template-columns: var(--sidebar-width) 1fr;
  min-height: 100vh;
}

.sidebar {
  background: var(--color-bg-secondary);
  border-right: 1px solid var(--color-border);
  padding: 1.5rem;
  position: sticky;
  top: 0;
  height: 100vh;
  overflow-y: auto;
}

.nav-header {
  margin-bottom: 1.5rem;
}

.nav-logo {
  font-weight: 700;
  font-size: 1.25rem;
  color: var(--color-text);
  text-decoration: none;
}

.nav-list {
  list-style: none;
}

.nav-item {
  margin-bottom: 0.25rem;
}

.nav-item a {
  display: block;
  padding: 0.5rem 0.75rem;
  color: var(--color-text-secondary);
  text-decoration: none;
  border-radius: 0.375rem;
  transition: background 0.15s, color 0.15s;
}

.nav-item a:hover {
  background: var(--color-bg);
  color: var(--color-text);
}

.nav-item.active > a {
  background: var(--color-primary);
  color: white;
}

.nav-children {
  list-style: none;
  margin-left: 1rem;
  margin-top: 0.25rem;
}

.main {
  display: grid;
  grid-template-columns: 1fr var(--toc-width);
  gap: 2rem;
  padding: 2rem;
  max-width: calc(var(--content-max-width) + var(--toc-width) + 4rem);
}

.doc {
  max-width: var(--content-max-width);
}

.doc header h1 {
  font-size: 2.5rem;
  font-weight: 700;
  margin-bottom: 1.5rem;
}

.content h2 {
  font-size: 1.5rem;
  font-weight: 600;
  margin: 2rem 0 1rem;
  padding-bottom: 0.5rem;
  border-bottom: 1px solid var(--color-border);
}

.content h3 {
  font-size: 1.25rem;
  font-weight: 600;
  margin: 1.5rem 0 0.75rem;
}

.content p {
  margin-bottom: 1rem;
}

.content pre {
  background: var(--color-bg-secondary);
  border: 1px solid var(--color-border);
  border-radius: 0.5rem;
  padding: 1rem;
  overflow-x: auto;
  font-family: var(--font-mono);
  font-size: 0.875rem;
  margin-bottom: 1rem;
}

.content code {
  font-family: var(--font-mono);
  font-size: 0.875em;
  background: var(--color-bg-secondary);
  padding: 0.125rem 0.25rem;
  border-radius: 0.25rem;
}

.content pre code {
  background: none;
  padding: 0;
}

.preview {
  background: var(--color-bg-secondary);
  border: 1px solid var(--color-border);
  border-radius: 0.5rem;
  padding: 2rem;
  margin-bottom: 1rem;
  display: flex;
  align-items: center;
  justify-content: center;
  gap: 1rem;
}

.toc {
  position: sticky;
  top: 2rem;
  align-self: start;
}

.toc h2 {
  font-size: 0.875rem;
  font-weight: 600;
  text-transform: uppercase;
  letter-spacing: 0.05em;
  color: var(--color-text-secondary);
  margin-bottom: 0.75rem;
}

.toc ul {
  list-style: none;
}

.toc li {
  margin-bottom: 0.25rem;
}

.toc a {
  font-size: 0.875rem;
  color: var(--color-text-secondary);
  text-decoration: none;
}

.toc a:hover {
  color: var(--color-text);
}

.toc-level-3 {
  padding-left: 1rem;
}

.toc-level-4 {
  padding-left: 2rem;
}

@media (max-width: 1024px) {
  .layout {
    grid-template-columns: 1fr;
  }

  .sidebar {
    position: fixed;
    left: -100%;
    z-index: 50;
    transition: left 0.3s;
  }

  .sidebar.open {
    left: 0;
  }

  .main {
    grid-template-columns: 1fr;
  }

  .toc {
    display: none;
  }
}
"#;

pub const DEFAULT_JS: &'static str = r#"// Rafters Docs - Generated JavaScript
(function() {
  'use strict';

  // Mobile menu toggle
  const menuBtn = document.querySelector('.menu-btn');
  const sidebar = document.querySelector('.sidebar');

  if (menuBtn && sidebar) {
    menuBtn.addEventListener('click', () => {
      sidebar.classList.toggle('open');
    });
  }

  // Highlight current nav item
  const currentPath = window.location.pathname;
  const navLinks = document.querySelectorAll('.nav-item a');

  navLinks.forEach(link => {
    if (link.getAttribute('href') === currentPath) {
      link.parentElement.classList.add('active');
    }
  });

  // Copy code button
  document.querySelectorAll('pre').forEach(pre => {
    const btn = document.createElement('button');
    btn.className = 'copy-btn';
    btn.textContent = 'Copy';
    btn.addEventListener('click', () => {
      navigator.clipboard.writeText(pre.textContent || '');
      btn.textContent = 'Copied!';
      setTimeout(() => { btn.textContent = 'Copy'; }, 2000);
    });
    pre.style.position = 'relative';
    pre.appendChild(btn);
  });
})();
"#;

} // verus!
