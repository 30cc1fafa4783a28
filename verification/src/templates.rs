//! The files of the skeleton. Every one of them is fixed text, but for the
//! README, whose first line is made from the project's name.

use vstd::prelude::*;
use vstd::string::*;

verus! {

/// The file that tells version control what to leave out.
pub const IGNORE_FILE: &'static str = ".gitignore";

/// Its content: the directory in which the package manager keeps dependencies.
pub const IGNORE_TEXT: &'static str = "node_modules";

/// The project manifest, written by the package manager.
pub const MANIFEST_FILE: &'static str = "package.json";

/// The configuration of the formatter.
pub const FORMATTER_FILE: &'static str = ".prettierrc";

pub const FORMATTER_TEXT: &'static str =
    "{\n\t\"semi\": false,\n\t\"arrowParens\": \"avoid\",\n\t\"singleQuote\": true\n}";

/// The environment file.
pub const ENVIRONMENT_FILE: &'static str = ".env";

pub const ENVIRONMENT_TEXT: &'static str = "PORT=8000";

/// The configuration of the transpiler.
pub const TRANSPILER_FILE: &'static str = ".babelrc";

pub const TRANSPILER_TEXT: &'static str = "{ \"presets\": [\"@babel/preset-env\"] }";

/// The README.
pub const README_FILE: &'static str = "README.md";

/// What stands before the title in the README.
pub const README_HEAD: &'static str = "# ";

/// What follows the title in the README.
pub const README_TAIL: &'static str = "\nHello World";

/// The source file with which the server starts.
pub const ENTRY_FILE: &'static str = "app/index.js";

pub const ENTRY_TEXT: &'static str =
    "import dotenv from 'dotenv'\ndotenv.config()\n\nimport Express from 'express'\nimport routes from './routes'\nimport cors from 'cors'\nimport { json } from 'body-parser'\nimport xss from 'xss-clean'\nimport helmet from 'helmet'\n\nconst app = Express()\n\n// Middlewares\napp.use(cors())\napp.use(json())\napp.use(xss())\napp.use(helmet())\n\n// Routes\napp.use(routes)\napp.get('/', (req, res) => res.send('Hello, World!'))\n\napp.listen(process.env.PORT || 8000, () =>\n  console.log('Server is running at http://localhost:8000')\n)";

/// The source file that exports the router.
pub const ROUTER_FILE: &'static str = "app/routes/index.js";

pub const ROUTER_TEXT: &'static str =
    "import { Router } from 'express'\nconst router = Router()\nexport default router";

/// The module of shared helpers.
pub const UTILS_FILE: &'static str = "app/utils/global.utils.js";

pub const UTILS_TEXT: &'static str =
    "import { intersection } from 'lodash'\n\n\nexport const safeResponse = controller => (req, res) =>\n  controller(req, res).catch(e => res.status(500).send(e.message))\n\n\nexport const removeFields = (obj, fields) => {\n  fields.split(' ').forEach(field => {\n    delete obj[field]\n  })\n}\n\n\nexport const doesInclude = (obj, keys) =>\n  intersection(Object.keys(obj), keys.split(' ')).length != 0\n\n\nexport const selectFields = (obj, fields) => {\n  Object.keys(obj).forEach(key => {\n    if (fields.split(' ').indexOf(key) == -1) delete obj[key]\n  })\n}";

/// What is put behind a folder's path to name its marker file.
pub const MARKER_SUFFIX: &'static str = "/.gitkeep";

/// The text of the README under the given title.
pub open spec fn readme_text(title: Seq<char>) -> Seq<char> {
    README_HEAD@ + title + README_TAIL@
}

/// The path of the marker file that makes version control keep `folder`.
pub open spec fn marker_path(folder: Seq<char>) -> Seq<char> {
    folder + MARKER_SUFFIX@
}

/// Writes the README under `title`: a heading with the title, then a greeting.
pub fn readme_content(title: &str) -> (content: String)
    ensures
        content@ == readme_text(title@),
{
    String::from_str(README_HEAD).concat(title).concat(README_TAIL)
}

/// Names the marker file of `folder`.
pub fn marker_file(folder: &str) -> (path: String)
    ensures
        path@ == marker_path(folder@),
{
    String::from_str(folder).concat(MARKER_SUFFIX)
}

} // verus!
